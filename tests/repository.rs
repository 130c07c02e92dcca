use birthday_greetings::repository::{CsvRepository, ReadError, Repository};
use birthday_greetings::{Date, Employ};

fn deindent(message: &str) -> String {
    let skip = message
        .lines()
        .filter(|l| !l.is_empty())
        .map(|l| l.chars().take_while(|&c| c == ' ').count())
        .min()
        .unwrap_or(0);
    let mut output = String::new();
    for l in message.lines() {
        output.push_str(&l[skip.min(l.len())..]);
        output.push('\n');
    }
    output
}

#[test]
fn read_employees() {
    let data = deindent(
        r#"
        last_name, first_name, date_of_birth, email
        Doe, John, 1982/10/08, john.doe@foobar.com
        Ann, Mary, 1975/09/11, mary.ann@foobar.com
        "#,
    );

    let repo = CsvRepository::read(data.as_bytes()).unwrap();

    let mut employees = repo.entries().iter();

    assert_eq!(
        employees.next().unwrap(),
        &Employ::new("John", "Doe", Date { year: 1982, month: 10, day: 8 }, "john.doe@foobar.com")
    );
    assert_eq!(
        employees.next().unwrap(),
        &Employ::new("Mary", "Ann", Date { year: 1975, month: 9, day: 11 }, "mary.ann@foobar.com")
    );
    assert_eq!(None, employees.next())
}

#[test]
fn read_header_only_gives_no_employees() {
    let repo = CsvRepository::read(b"last_name,first_name,date_of_birth,email\n").unwrap();
    assert!(repo.employees().is_empty());
}

#[test]
fn read_reports_invalid_date_with_its_row() {
    let data = "last_name,first_name,date_of_birth,email\nDoe,John,1982/10/08,a@b\nAnn,Mary,1975/02/30,c@d\n";
    assert_eq!(CsvRepository::read(data.as_bytes()).unwrap_err(), ReadError::InvalidDate { row: 1 });
}

#[test]
fn read_reports_missing_field() {
    let data = "last_name,first_name,date_of_birth\nDoe,John,1982/10/08\n";
    assert_eq!(CsvRepository::read(data.as_bytes()).unwrap_err(), ReadError::MissingField { row: 0 });
}

#[test]
fn read_reports_ragged_csv() {
    let data = "last_name,first_name,date_of_birth,email\nDoe,John\n";
    assert!(matches!(CsvRepository::read(data.as_bytes()), Err(ReadError::Csv { .. })));
}

#[test]
fn from_records_trims_fields() {
    let records = vec![vec![
        " Doe ".to_string(),
        "\tJohn".to_string(),
        " 2000/1/2 ".to_string(),
        "j@x ".to_string(),
    ]];
    let repo = CsvRepository::from_records(&records).unwrap();
    assert_eq!(repo.employees()[0], Employ::new("John", "Doe", Date { year: 2000, month: 1, day: 2 }, "j@x"));
}

#[test]
fn date_parse_reads_year_month_day() {
    assert_eq!(Date::parse(" 1998/12/3 "), Some(Date { year: 1998, month: 12, day: 3 }));
    assert_eq!(Date::parse("1998-12-03"), None);
    assert_eq!(Date::parse("2015/9/31"), None);
}
