//! Wall-clock time as milliseconds since the Unix epoch, UTC.

use chrono::{Datelike, TimeZone};
use vstd::prelude::*;

verus! {

/// Milliseconds in one UTC day.
pub const MILLIS_PER_DAY: i64 = 86_400_000;

/// `chrono::Utc::now` as milliseconds since the epoch.
/// Nothing is claimed of the value: it is the time of the call.
#[verifier::external_body]
pub(crate) fn now_millis() -> i64 {
    chrono::Utc::now().timestamp_millis()
}

/// The first millisecond of the UTC day that holds `now`, where that instant
/// is representable; `now` itself otherwise.
pub open spec fn utc_day_start_spec(now: i64) -> int {
    let start = now - ((now as int) % (MILLIS_PER_DAY as int));
    if start >= i64::MIN { start } else { now as int }
}

/// Start of the UTC day of `now`.
pub fn start_of_utc_day(now: i64) -> (r: i64)
    ensures
        r == utc_day_start_spec(now),
        r <= now,
{
    match now.checked_rem_euclid(MILLIS_PER_DAY) {
        Some(offset) => match now.checked_sub(offset) {
            Some(start) => start,
            None => now,
        },
        None => now,
    }
}

/// The UTC calendar year and month that chrono gives for the instant `now`
/// (milliseconds since the epoch), when chrono can represent it.
pub uninterp spec fn utc_year_month(now: i64) -> Option<(i32, u32)>;

/// The instant, in milliseconds since the epoch, that chrono gives for the
/// UTC date and time of day given, when the date and time exist.
pub uninterp spec fn utc_instant(year: i32, month: u32, day: u32, hour: u32, minute: u32, second: u32) -> Option<i64>;

/// `chrono::DateTime::<Utc>::from_timestamp_millis`, then `year` and
/// `month`: the UTC calendar month of `now`, as chrono's calendar counts it.
#[verifier::external_body]
fn calendar_month_of(now: i64) -> (r: Option<(i32, u32)>)
    ensures
        r == utc_year_month(now),
{
    match chrono::DateTime::<chrono::Utc>::from_timestamp_millis(now) {
        Some(at) => Some((at.year(), at.month())),
        None => None,
    }
}

/// `chrono::NaiveDate::from_ymd_opt`, `and_hms_opt` and
/// `Utc.from_utc_datetime`, then `timestamp_millis`: the instant of a UTC
/// date and time of day, as chrono's calendar counts it.
#[verifier::external_body]
fn instant_of(year: i32, month: u32, day: u32, hour: u32, minute: u32, second: u32) -> (r: Option<i64>)
    ensures
        r == utc_instant(year, month, day, hour, minute, second),
{
    match chrono::NaiveDate::from_ymd_opt(year, month, day) {
        Some(date) => match date.and_hms_opt(hour, minute, second) {
            Some(at) => Some(chrono::Utc.from_utc_datetime(&at).timestamp_millis()),
            None => None,
        },
        None => None,
    }
}

/// The first millisecond of the UTC calendar month of `now`: midnight of
/// day 1 of that month; `now` itself when the calendar cannot say.
pub open spec fn utc_month_start(now: i64) -> i64 {
    match utc_year_month(now) {
        Some((year, month)) => match utc_instant(year, month, 1, 0, 0, 0) {
            Some(start) => start,
            None => now,
        },
        None => now,
    }
}

/// Start of the UTC calendar month of `now`.
pub fn start_of_utc_month(now: i64) -> (r: i64)
    ensures
        r == utc_month_start(now),
{
    match calendar_month_of(now) {
        Some((year, month)) => match instant_of(year, month, 1, 0, 0, 0) {
            Some(start) => start,
            None => now,
        },
        None => now,
    }
}

} // verus!
