//! The local clock.

use chrono::Datelike;
use vstd::prelude::*;

use crate::date::CivilDate;

verus! {

/// Relies on `chrono::Local::now` and `DateTime::date_naive`: today's date
/// in local time. It changes with the clock, so only its validity is stated.
#[verifier::external_body]
pub(crate) fn today() -> (r: CivilDate)
    ensures
        r.valid(),
{
    let d = chrono::Local::now().date_naive();
    CivilDate { year: d.year(), month: d.month(), day: d.day() }
}

/// Relies on `chrono::Local::now`, `DateTime::naive_local` and
/// `NaiveDateTime`'s `Display`: the local date and time of day as text.
/// It changes with the clock, so nothing is stated of it.
#[verifier::external_body]
pub(crate) fn now_timestamp() -> (r: String) {
    chrono::Local::now().naive_local().to_string()
}

} // verus!
