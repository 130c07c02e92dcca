//! Calendar dates as the library holds them, and their parsing.
use vstd::prelude::*;

use chrono::Datelike;

use crate::text::{trim, trim_spec};

verus! {

/// A calendar date: year, month (1 to 12) and day of month (1 to 31).
#[derive(Debug, Clone, Copy, PartialEq, Eq, Structural, Hash)]
pub struct Date {
    pub year: i32,
    pub month: u32,
    pub day: u32,
}

/// What `chrono` makes of `text` read with the `strftime`-style `format`.
pub uninterp spec fn parsed_date(text: Seq<char>, format: Seq<char>) -> Option<Date>;

/// Relies on `chrono::NaiveDate::parse_from_str`, and on `Datelike::{year, month, day}`,
/// whose month ranges over 1 to 12 and whose day over 1 to 31.
#[verifier::external_body]
fn parse_with_format(text: &str, format: &str) -> (r: Option<Date>)
    ensures
        r == parsed_date(text@, format@),
        r matches Some(d) ==> 1 <= d.month <= 12 && 1 <= d.day <= 31,
{
    chrono::NaiveDate::parse_from_str(text, format).ok().map(
        |d| Date { year: d.year(), month: d.month(), day: d.day() },
    )
}

/// The layout of dates in the employee records: `year/month/day`.
pub open spec fn record_date_format() -> Seq<char> {
    "%Y/%m/%d"@
}

/// Two dates fall on the same day of the year.
pub open spec fn same_day_of_year(a: Date, b: Date) -> bool {
    a.month == b.month && a.day == b.day
}

impl Date {
    /// Reads a `year/month/day` date, ignoring surrounding whitespace.
    pub fn parse(text: &str) -> (r: Option<Date>)
        ensures
            r == parsed_date(trim_spec(text@), record_date_format()),
    {
        let t = trim(text);
        parse_with_format(t.as_str(), "%Y/%m/%d")
    }

    /// Whether `self` and `other` fall on the same day of the year.
    pub fn same_day_of_year(&self, other: &Date) -> (r: bool)
        ensures
            r == same_day_of_year(*self, *other),
    {
        self.month == other.month && self.day == other.day
    }
}

} // verus!
