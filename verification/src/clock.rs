//! The one place the library touches a clock.
//!
//! The current local date enters through a single trusted wrapper; all
//! date logic elsewhere is verified over the library's own `Date` type
//! and holds whatever value the clock returned.

use crate::date::{days_in_month, Date, MAX_YEAR};
use chrono::Datelike;
use vstd::prelude::*;

verus! {

/// Reads the current local calendar date.
///
/// Relies on chrono's `Local::now` and `NaiveDate::year`/`month`/`day`:
/// a `NaiveDate` is always a real proleptic-Gregorian date with a year
/// within about plus or minus 262,000 of the common era, `month` counts
/// from 1 to 12 and `day` from 1 to the month's length.
#[verifier::external_body]
fn today_local() -> (r: Date)
    ensures
        -262144 <= r.year <= 262143,
        1 <= r.month <= 12,
        1 <= r.day <= days_in_month(r.year as int, r.month as int),
{
    let now = chrono::Local::now().date_naive();
    Date { year: now.year(), month: now.month() as u8, day: now.day() as u8 }
}

/// The current local date, checked into the library's well-formed range.
///
/// `None` only when the clock reports a year before the common era, which
/// no running system does; every `Some` date is well formed, has a
/// predecessor day, and leaves room for shelf-life arithmetic.
pub fn today_checked() -> (r: Option<Date>)
    ensures
        match r {
            Some(d) => d.wf() && 1 <= d.year && d.year + 400 <= MAX_YEAR && !d.is_min(),
            None => true,
        },
{
    let d = today_local();
    if 1 <= d.year && d.year <= 262143 {
        Some(d)
    } else {
        None
    }
}

} // verus!
