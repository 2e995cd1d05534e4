//! The time of day and the length of a cooldown, both in milliseconds.

use vstd::prelude::*;

verus! {

/// The time now, in milliseconds since the start of 1970 (UTC), as
/// `chrono::Utc::now()` gives it. Nothing is promised of the value: the
/// clock may stand still between two calls, and it may be set back.
/// `chrono` gives up where the system clock stands before 1970.
#[verifier::external_body]
pub(crate) fn now_millis() -> (now: i64) {
    chrono::Utc::now().timestamp_millis()
}

/// The length of time that `cooldown` milliseconds are: the same number,
/// but nothing at all for the one number that is no length of time.
pub open spec fn period(cooldown: i64) -> i64 {
    if cooldown < -i64::MAX {
        0
    } else {
        cooldown
    }
}

/// `chrono::TimeDelta::try_milliseconds`, with no length of time taken as
/// zero. `chrono` takes every number of milliseconds but the one below
/// `-i64::MAX`, and `num_milliseconds` gives the same number back.
#[verifier::external_body]
pub(crate) fn period_millis(cooldown: i64) -> (r: i64)
    ensures
        r == period(cooldown),
{
    chrono::TimeDelta::try_milliseconds(cooldown).unwrap_or_default().num_milliseconds()
}

} // verus!
