//! Calendar dates as plain values, and the ISO `YYYY-MM-DD` text form that
//! records store them in.

use chrono::Datelike;
use vstd::prelude::*;

verus! {

/// The earliest year a calendar date may carry.
pub const MIN_YEAR: i32 = -262143;

/// The latest year a calendar date may carry.
pub const MAX_YEAR: i32 = 262142;

pub open spec fn is_leap_year(y: int) -> bool {
    y % 4 == 0 && (y % 100 != 0 || y % 400 == 0)
}

pub open spec fn days_in_month(y: int, m: int) -> int {
    if m == 2 {
        if is_leap_year(y) { 29 } else { 28 }
    } else if m == 4 || m == 6 || m == 9 || m == 11 {
        30
    } else {
        31
    }
}

/// A day of the proleptic Gregorian calendar, without time of day.
#[derive(Clone, Copy, Debug, PartialEq, Eq, Structural)]
pub struct CivilDate {
    pub year: i32,
    pub month: u32,
    pub day: u32,
}

/// Strict chronological order on (year, month, day) triples.
pub open spec fn precedes(a: (int, int, int), b: (int, int, int)) -> bool {
    a.0 < b.0 || (a.0 == b.0 && (a.1 < b.1 || (a.1 == b.1 && a.2 < b.2)))
}

impl View for CivilDate {
    type V = (int, int, int);

    open spec fn view(&self) -> (int, int, int) {
        (self.year as int, self.month as int, self.day as int)
    }
}

impl CivilDate {
    /// The date exists in the calendar and lies in the supported year range.
    pub open spec fn valid(self) -> bool {
        &&& MIN_YEAR <= self.year <= MAX_YEAR
        &&& 1 <= self.month <= 12
        &&& 1 <= self.day <= days_in_month(self.year as int, self.month as int)
    }

    /// Whether `self` is a strictly earlier day than `other`.
    pub fn is_before(&self, other: &CivilDate) -> (r: bool)
        ensures
            r == precedes(self@, other@),
    {
        if self.year != other.year {
            self.year < other.year
        } else if self.month != other.month {
            self.month < other.month
        } else {
            self.day < other.day
        }
    }
}

/// What reading a text as an ISO `YYYY-MM-DD` date gives: the date's
/// (year, month, day), or nothing where the text is no such date.
pub uninterp spec fn parsed_iso_date(s: Seq<char>) -> Option<(int, int, int)>;

/// The decimal digit for `n`, taken modulo ten.
pub open spec fn digit_char(n: int) -> char {
    let k = n % 10;
    if k == 0 { '0' } else if k == 1 { '1' } else if k == 2 { '2' } else if k == 3 { '3' }
    else if k == 4 { '4' } else if k == 5 { '5' } else if k == 6 { '6' } else if k == 7 { '7' }
    else if k == 8 { '8' } else { '9' }
}

/// `n` in two decimal digits, with a leading zero below ten.
pub open spec fn two_digits(n: int) -> Seq<char> {
    seq![digit_char(n / 10), digit_char(n)]
}

/// `YYYY-MM-DD` for a year written in four digits.
pub open spec fn ymd_text(y: int, m: int, d: int) -> Seq<char> {
    two_digits(y / 100) + two_digits(y % 100) + seq!['-'] + two_digits(m) + seq!['-'] + two_digits(d)
}

/// The ISO `YYYY-MM-DD` text of a date.
pub uninterp spec fn iso_date_text(y: int, m: int, d: int) -> Seq<char>;

/// Relies on `chrono::NaiveDate::parse_from_str` with the format `%Y-%m-%d`:
/// the outcome depends on the text alone, and a date it yields is a real
/// calendar date between `NaiveDate::MIN` (year -262143) and `NaiveDate::MAX`
/// (year 262142), the range that `valid` allows.
#[verifier::external_body]
pub(crate) fn parse_iso_date(s: &str) -> (r: Option<CivilDate>)
    ensures
        r.is_some() == parsed_iso_date(s@).is_some(),
        r.is_some() ==> parsed_iso_date(s@) == Some(r.unwrap()@),
        r.is_some() ==> r.unwrap().valid(),
{
    match chrono::NaiveDate::parse_from_str(s, "%Y-%m-%d") {
        Ok(d) => Some(CivilDate { year: d.year(), month: d.month(), day: d.day() }),
        Err(_) => None,
    }
}

/// Relies on `chrono::NaiveDate::from_ymd_opt`, which yields a date for every
/// valid (year, month, day), and on `NaiveDate`'s `Display`, whose text depends
/// on the date alone and, for years 0 to 9999, is the zero-padded year, month
/// and day joined by dashes.
#[verifier::external_body]
pub(crate) fn iso_text(d: &CivilDate) -> (r: String)
    requires
        d.valid(),
    ensures
        r@ == iso_date_text(d.year as int, d.month as int, d.day as int),
        0 <= d.year <= 9999 ==> r@ == ymd_text(d.year as int, d.month as int, d.day as int),
{
    chrono::NaiveDate::from_ymd_opt(d.year, d.month, d.day).unwrap().to_string()
}

} // verus!
