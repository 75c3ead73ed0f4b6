//! Calendar text for millisecond timestamps, through chrono.
use vstd::prelude::*;

use crate::entry::opt_view;

verus! {

/// The UTC date of a millisecond timestamp as `YYYYMMDD`, or none where
/// chrono cannot represent the instant.
pub uninterp spec fn utc_day_stamp(ms: int) -> Option<Seq<char>>;

/// The UTC date and time of a millisecond timestamp as
/// `YYYY-MM-DD HH:MM:SS`, or none where chrono cannot represent the instant.
pub uninterp spec fn utc_clock_stamp(ms: int) -> Option<Seq<char>>;

/// Relies on `chrono::DateTime::from_timestamp_millis` (none when out of
/// range) and chrono's `%Y%m%d` format.
#[verifier::external_body]
pub fn day_stamp(ms: i64) -> (r: Option<String>)
    ensures
        opt_view(r) == utc_day_stamp(ms as int),
{
    match chrono::DateTime::from_timestamp_millis(ms) {
        Some(t) => Some(t.format("%Y%m%d").to_string()),
        None => None,
    }
}

/// Relies on `chrono::DateTime::from_timestamp_millis` (none when out of
/// range) and chrono's `%Y-%m-%d %H:%M:%S` format.
#[verifier::external_body]
pub fn clock_stamp(ms: i64) -> (r: Option<String>)
    ensures
        opt_view(r) == utc_clock_stamp(ms as int),
{
    match chrono::DateTime::from_timestamp_millis(ms) {
        Some(t) => Some(t.format("%Y-%m-%d %H:%M:%S").to_string()),
        None => None,
    }
}

} // verus!
