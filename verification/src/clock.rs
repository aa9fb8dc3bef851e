//! The wall clock, read in whole seconds since the Unix epoch.
use vstd::prelude::*;

verus! {

/// Seconds in a day.
pub const SECONDS_PER_DAY: i64 = 86_400;

/// What holds of every reading of the clock: it does not lie before the
/// epoch, and the number of its day fits in 32 bits.
pub open spec fn is_reading(seconds: i64) -> bool {
    0 <= seconds && seconds / SECONDS_PER_DAY <= i32::MAX
}

/// Calls `chrono::Utc::now` and takes its `timestamp`. The value depends on
/// when the call is made. The crate hands out no time before the Unix
/// epoch and none whose day number leaves 32 bits (it stops the program on
/// such a system time instead), and that is all that is stated.
#[verifier::external_body]
pub(crate) fn utc_now_timestamp() -> (seconds: i64)
    ensures
        is_reading(seconds),
{
    chrono::Utc::now().timestamp()
}

/// Current time in seconds since the Unix epoch.
pub fn unix_now() -> (now: i64)
    ensures
        is_reading(now),
{
    utc_now_timestamp()
}

} // verus!
