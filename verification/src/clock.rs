//! The wall clock.

use chrono::NaiveDateTime;
use vstd::prelude::*;

verus! {

#[verifier::external_type_specification]
#[verifier::external_body]
pub struct ExNaiveDateTime(chrono::NaiveDateTime);

/// The last second that the clock can show: the last one of the year
/// 262142, the latest date that `chrono` holds.
pub const LAST_CLOCK_SECOND: i64 = 8_210_266_876_799;

/// `now`, in seconds since the Unix epoch, is a time that the clock can
/// show: not before the epoch and not after `LAST_CLOCK_SECOND`.
pub open spec fn is_clock_time(now: i64) -> bool {
    0 <= now <= LAST_CLOCK_SECOND
}

/// The current time in UTC, as a date and time and as seconds since the
/// Unix epoch: `naive_utc` and `timestamp` of one `chrono::Utc::now`.
///
/// Trusted: the seconds are a time that the clock can show. `Utc::now` takes
/// the time that has passed since the epoch and makes a date of it, and
/// panics where the system's clock stands before the epoch or beyond the
/// dates that `chrono` holds. Nothing else is claimed of the value: callers
/// are proved for every time the clock may show.
#[verifier::external_body]
pub(crate) fn utc_now() -> (now: (NaiveDateTime, i64))
    ensures
        is_clock_time(now.1),
{
    let now = chrono::Utc::now();
    (now.naive_utc(), now.timestamp())
}

/// The current time in seconds since the Unix epoch.
///
/// It is whatever the clock shows. Each caller hands it to a function that
/// takes the time as an argument and is proved for every time.
pub(crate) fn unix_time_now() -> (now: i64)
    ensures
        is_clock_time(now),
{
    utc_now().1
}

} // verus!
