use vstd::prelude::*;

verus! {

/// Seconds in one day.
pub const DAY_SECS: i64 = 86400;

/// The sliding lifetime of an access token: seven days.
pub const TOKEN_LIFETIME_SECS: i64 = 7 * DAY_SECS;

/// The absolute lifetime of a session, counted from its creation: fifty days.
pub const SESSION_LIFETIME_SECS: i64 = 50 * DAY_SECS;

/// Every timestamp that the clock can report lies strictly between
/// `-TIMESTAMP_LIMIT` and `TIMESTAMP_LIMIT` seconds.
pub const TIMESTAMP_LIMIT: i64 = 10000000000000;

/// A timestamp the clock can report.
pub open spec fn clock_time(t: int) -> bool {
    -TIMESTAMP_LIMIT < t < TIMESTAMP_LIMIT
}

/// Relies on `chrono::Local::now` and `NaiveDateTime::and_utc().timestamp()`:
/// the local wall-clock time in whole seconds since 1970-01-01 00:00:00.
/// A `NaiveDateTime` lies between 262145 BCE and 262143 CE, so its second
/// count is below 10^13 in magnitude.
#[verifier::external_body]
pub fn current_time() -> (r: i64)
    ensures
        clock_time(r as int),
{
    chrono::Local::now().naive_local().and_utc().timestamp()
}

} // verus!
