//! Trusted bindings to chrono for the timestamp work the planner needs:
//! range checking, strftime rendering and year extraction.  Timestamps are
//! seconds since the Unix epoch, interpreted in UTC.
use std::fmt::Write;

use chrono::Datelike;
use vstd::prelude::*;

verus! {

/// Whether chrono can represent this second count as a date and time.
pub uninterp spec fn spec_timestamp_in_range(secs: i64) -> bool;

/// Relies on chrono::DateTime::<Utc>::from_timestamp: whether a second count
/// is representable depends on the value alone.
#[verifier::external_body]
pub fn timestamp_in_range(secs: i64) -> (r: bool)
    ensures
        r == spec_timestamp_in_range(secs),
{
    chrono::DateTime::<chrono::Utc>::from_timestamp(secs, 0).is_some()
}

/// The strftime rendering of a UTC timestamp, or nothing when the format
/// string is invalid.
pub uninterp spec fn formatted_time(ts: int, fmt: Seq<char>) -> Option<Seq<char>>;

/// Relies on chrono's strftime formatting of a UTC timestamp: the rendering
/// depends on the timestamp and the format string alone, and an invalid
/// format specifier surfaces as a formatting error, not a panic.
#[verifier::external_body]
pub fn format_timestamp(ts: i64, fmt: &str) -> (r: Option<String>)
    requires
        spec_timestamp_in_range(ts),
    ensures
        match r {
            Option::Some(s) => formatted_time(ts as int, fmt@) == Some(s@),
            Option::None => formatted_time(ts as int, fmt@) is None,
        },
{
    let dt = match chrono::DateTime::<chrono::Utc>::from_timestamp(ts, 0) {
        Some(dt) => dt,
        None => return None,
    };
    let mut out = String::new();
    match write!(out, "{}", dt.format(fmt)) {
        Ok(()) => Some(out),
        Err(_) => None,
    }
}

/// The proleptic Gregorian year of a UTC timestamp.
pub uninterp spec fn year_of(ts: int) -> int;

/// Relies on chrono::Datelike::year of a UTC timestamp: the year depends on
/// the timestamp alone.
#[verifier::external_body]
pub fn timestamp_year(ts: i64) -> (y: i32)
    requires
        spec_timestamp_in_range(ts),
    ensures
        y as int == year_of(ts as int),
{
    match chrono::DateTime::<chrono::Utc>::from_timestamp(ts, 0) {
        Some(dt) => dt.year(),
        None => 0,
    }
}

} // verus!
