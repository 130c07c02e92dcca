//! Where employee records come from: a source of entries, and one read from CSV data with a
//! header row and the columns `last_name, first_name, date_of_birth, email`.
use vstd::prelude::*;

use crate::date::{parsed_date, record_date_format, Date};
use crate::employ::{Employ, EmployView};
use crate::text::{trim, trim_spec};

verus! {

/// A source of employee records.
pub trait Repository {
    /// The records this source holds, in order.
    spec fn records(&self) -> Seq<EmployView>;

    fn entries(&self) -> (r: &Vec<Employ>)
        ensures
            r@.map_values(|e: Employ| e@) == self.records(),
    ;
}

/// A list of records held in memory is a source of them as it stands.
impl Repository for Vec<Employ> {
    open spec fn records(&self) -> Seq<EmployView> {
        self@.map_values(|e: Employ| e@)
    }

    fn entries(&self) -> (r: &Vec<Employ>) {
        self
    }
}

/// Why CSV data could not be read into employee records.
#[derive(Debug, Clone, PartialEq, Eq)]
pub enum ReadError {
    /// The data is not well-formed CSV; the message is the CSV reader's.
    Csv { message: String },
    /// Record `row` (counting data records from zero) has fewer than four fields.
    MissingField { row: usize },
    /// Record `row` has a birth date that is not a valid `year/month/day` date.
    InvalidDate { row: usize },
}

/// What `csv` reads from `data` with its default settings: the records after the header row,
/// each as its list of fields, or the message of the first error.
pub uninterp spec fn csv_records(data: Seq<u8>) -> Result<Seq<Seq<Seq<char>>>, Seq<char>>;

/// Relies on `csv::Reader::from_reader` with default settings (a header row that is not
/// returned, and an error for a record whose width differs from the header's),
/// `Reader::records`, `StringRecord::iter` and the `Display` text of `csv::Error`.
#[verifier::external_body]
fn csv_rows(data: &[u8]) -> (r: Result<Vec<Vec<String>>, String>)
    ensures
        match r {
            Ok(rows) => csv_records(data@) == Ok::<Seq<Seq<Seq<char>>>, Seq<char>>(rows.deep_view()),
            Err(m) => csv_records(data@) == Err::<Seq<Seq<Seq<char>>>, Seq<char>>(m@),
        },
{
    let mut reader = csv::Reader::from_reader(data);
    reader.records().map(|rec| rec.map(|fields| fields.iter().map(|f| f.to_string()).collect()))
        .collect::<Result<Vec<Vec<String>>, csv::Error>>()
        .map_err(|e| e.to_string())
}

/// The employee that record number `index` describes: first name in field 1, surname in
/// field 0, birth date in field 2, email in field 3, each without surrounding whitespace.
pub open spec fn employ_of_record(record: Seq<Seq<char>>, index: int) -> Result<EmployView, ReadError> {
    if record.len() < 4 {
        Err(ReadError::MissingField { row: index as usize })
    } else {
        match parsed_date(trim_spec(record[2]), record_date_format()) {
            None => Err(ReadError::InvalidDate { row: index as usize }),
            Some(birthday) => Ok(
                EmployView {
                    name: trim_spec(record[1]),
                    surname: trim_spec(record[0]),
                    birthday,
                    email: trim_spec(record[3]),
                },
            ),
        }
    }
}

/// The employees that `records` describe, in order, or the error of the first bad record.
pub open spec fn employees_of_records(records: Seq<Seq<Seq<char>>>) -> Result<Seq<EmployView>, ReadError>
    decreases records.len(),
{
    if records.len() == 0 {
        Ok(Seq::empty())
    } else {
        match employees_of_records(records.drop_last()) {
            Err(e) => Err(e),
            Ok(prev) => match employ_of_record(records.last(), records.len() - 1) {
                Ok(e) => Ok(prev.push(e)),
                Err(e) => Err(e),
            },
        }
    }
}

/// Employee records read from CSV data.
#[derive(Debug)]
pub struct CsvRepository {
    employees: Vec<Employ>,
}

impl View for CsvRepository {
    type V = Seq<EmployView>;

    closed spec fn view(&self) -> Seq<EmployView> {
        self.employees@.map_values(|e: Employ| e@)
    }
}

impl Repository for CsvRepository {
    open spec fn records(&self) -> Seq<EmployView> {
        self@
    }

    /// The records, in the order of the data.
    fn entries(&self) -> (r: &Vec<Employ>) {
        &self.employees
    }
}

impl CsvRepository {
    /// The records, in the order of the data.
    pub fn employees(&self) -> (r: &Vec<Employ>)
        ensures
            r@.map_values(|e: Employ| e@) == self@,
    {
        &self.employees
    }

    /// Builds the repository from records already split into fields.
    pub fn from_records(records: &Vec<Vec<String>>) -> (r: Result<CsvRepository, ReadError>)
        ensures
            match employees_of_records(records.deep_view()) {
                Ok(es) => r matches Ok(repo) && repo@ == es,
                Err(e) => r == Err::<CsvRepository, ReadError>(e),
            },
    {
        let ghost all = records.deep_view();
        let mut employees: Vec<Employ> = Vec::new();
        let mut i: usize = 0;
        assert(all.subrange(0, 0) =~= Seq::<Seq<Seq<char>>>::empty());
        assert(employees@.map_values(|e: Employ| e@) =~= Seq::<EmployView>::empty());
        while i < records.len()
            invariant
                i <= records@.len(),
                all == records.deep_view(),
                employees_of_records(all.subrange(0, i as int)) == Ok::<Seq<EmployView>, ReadError>(
                    employees@.map_values(|e: Employ| e@),
                ),
            decreases records@.len() - i,
        {
            let record = &records[i];
            let ghost prefix = all.subrange(0, i + 1);
            assert(prefix.drop_last() =~= all.subrange(0, i as int));
            assert(prefix.last() == record.deep_view());
            if record.len() < 4 {
                proof {
                    lemma_error_persists(all, i + 1);
                }
                return Err(ReadError::MissingField { row: i });
            }
            assert(record.deep_view()[2] == record@[2]@);
            let birthday = match Date::parse(record[2].as_str()) {
                Some(d) => d,
                None => {
                    proof {
                        lemma_error_persists(all, i + 1);
                    }
                    return Err(ReadError::InvalidDate { row: i });
                },
            };
            let e = Employ {
                name: trim(record[1].as_str()),
                surname: trim(record[0].as_str()),
                birthday,
                email: trim(record[3].as_str()),
            };
            assert(record.deep_view()[0] == record@[0]@);
            assert(record.deep_view()[1] == record@[1]@);
            assert(record.deep_view()[3] == record@[3]@);
            assert(employ_of_record(prefix.last(), i as int) == Ok::<EmployView, ReadError>(e@));
            let ghost before = employees@;
            employees.push(e);
            assert(employees@.map_values(|e: Employ| e@) =~= before.map_values(|e: Employ| e@).push(
                e@,
            ));
            i = i + 1;
        }
        assert(all.subrange(0, i as int) =~= all);
        Ok(CsvRepository { employees })
    }

    /// Reads CSV data: a header row, then one employee per record.
    pub fn read(data: &[u8]) -> (r: Result<CsvRepository, ReadError>)
        ensures
            match csv_records(data@) {
                Err(m) => r matches Err(ReadError::Csv { message }) && message@ == m,
                Ok(records) => match employees_of_records(records) {
                    Ok(es) => r matches Ok(repo) && repo@ == es,
                    Err(e) => r == Err::<CsvRepository, ReadError>(e),
                },
            },
    {
        match csv_rows(data) {
            Err(message) => Err(ReadError::Csv { message }),
            Ok(records) => CsvRepository::from_records(&records),
        }
    }
}

/// Once a prefix of the records holds a bad record, so does every longer prefix.
proof fn lemma_error_persists(records: Seq<Seq<Seq<char>>>, n: int)
    requires
        0 <= n <= records.len(),
        employees_of_records(records.subrange(0, n)) is Err,
    ensures
        employees_of_records(records) == employees_of_records(records.subrange(0, n)),
    decreases records.len() - n,
{
    if n < records.len() {
        assert(records.subrange(0, n + 1).drop_last() =~= records.subrange(0, n));
        lemma_error_persists(records, n + 1);
    } else {
        assert(records.subrange(0, n) =~= records);
    }
}

} // verus!
