//! The wall clock, reached through one trusted wrapper. Every function
//! that stamps a transcript line takes the timestamp as an argument and
//! is verified for every value of it; only the `_now` conveniences call
//! in here.

use vstd::prelude::*;

verus! {

/// Relies on chrono::Local::now and chrono's formatting: the local wall
/// clock rendered as `day-month-year_hour:minute:second`. The result
/// depends on the clock, so nothing is promised of it.
#[verifier::external_body]
pub(crate) fn now_timestamp() -> (r: String) {
    let now: chrono::DateTime<chrono::Local> = chrono::Local::now();
    format!("{}", now.format("%d-%m-%Y_%H:%M:%S"))
}

} // verus!
