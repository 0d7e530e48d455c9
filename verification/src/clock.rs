//! Instants as whole seconds since the Unix epoch, in UTC, within the range
//! that a calendar date-time can hold.

use vstd::prelude::*;

verus! {

/// The earliest instant with a calendar date: the first second of the year -262143.
pub const MIN_TIMESTAMP: i64 = -8_334_601_228_800;

/// The latest instant with a calendar date: the last second of the year 262142.
pub const MAX_TIMESTAMP: i64 = 8_210_266_876_799;

/// The length of a day in seconds.
pub const SECONDS_PER_DAY: i64 = 86_400;

/// Whether `t` is an instant with a calendar date.
pub open spec fn valid_timestamp(t: int) -> bool {
    MIN_TIMESTAMP <= t <= MAX_TIMESTAMP
}

/// The first second of the UTC day that holds `t`.
pub open spec fn day_start(t: int) -> int {
    t - t % (SECONDS_PER_DAY as int)
}

/// The first second of the UTC day after the one that holds `t`.
pub open spec fn midnight_after(t: int) -> int {
    day_start(t + SECONDS_PER_DAY)
}

/// Calls chrono: `DateTime::from_timestamp` reads `secs` as a UTC date and
/// time of day, `NaiveDateTime::date` with `NaiveDate::and_hms_opt(0, 0, 0)`
/// keeps the date and sets the time of day to midnight, and
/// `DateTime::timestamp` turns that back into seconds. The contract claims
/// that this rounds `secs` down to a multiple of a day, counted from the
/// epoch, for every instant that has a calendar date.
#[verifier::external_body]
fn start_of_day(secs: i64) -> (start: i64)
    requires
        valid_timestamp(secs as int),
    ensures
        start == day_start(secs as int),
{
    let at = chrono::DateTime::from_timestamp(secs, 0).unwrap().naive_utc();
    at.date().and_hms_opt(0, 0, 0).unwrap().and_utc().timestamp()
}

/// The first second of the UTC day after the one that holds `now`.
pub fn next_midnight(now: i64) -> (midnight: i64)
    requires
        valid_timestamp(now as int),
        valid_timestamp(now + SECONDS_PER_DAY),
    ensures
        midnight == midnight_after(now as int),
        now < midnight <= now + SECONDS_PER_DAY,
{
    start_of_day(now + SECONDS_PER_DAY)
}

/// `next_midnight` for every instant: `None` where the day after `now` has
/// no calendar date.
pub fn try_next_midnight(now: i64) -> (midnight: Option<i64>)
    ensures
        midnight == if valid_timestamp(now as int) && valid_timestamp(now + SECONDS_PER_DAY) {
            Some(midnight_after(now as int) as i64)
        } else {
            None
        },
{
    if MIN_TIMESTAMP <= now && now <= MAX_TIMESTAMP - SECONDS_PER_DAY {
        Some(next_midnight(now))
    } else {
        None
    }
}

} // verus!
