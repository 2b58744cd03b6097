//! Durations, which are `chrono`'s.

use vstd::prelude::*;

verus! {

/// `chrono::TimeDelta`, which `chrono` also calls `Duration`. Nothing is
/// known here of what a value of it holds.
#[verifier::external_type_specification]
#[verifier::external_body]
pub struct ExTimeDelta(chrono::TimeDelta);

/// The duration that `chrono::TimeDelta::seconds` makes of a number of
/// seconds.
pub uninterp spec fn duration_of_seconds(seconds: i64) -> chrono::TimeDelta;

/// The most seconds, in either direction, that a duration can hold: a
/// thousandth of `i64::MAX`, rounded down.
pub const MAX_SECONDS: i64 = 9_223_372_036_854_775;

/// `seconds` brought into the range that a duration can hold.
pub open spec fn clamp_seconds(seconds: int) -> i64 {
    if seconds > MAX_SECONDS {
        MAX_SECONDS
    } else if seconds < -MAX_SECONDS {
        (-MAX_SECONDS) as i64
    } else {
        seconds as i64
    }
}

/// `chrono::TimeDelta::seconds`, which makes a duration of a number of
/// seconds and panics where the number is more than `i64::MAX / 1000` or
/// less than `-i64::MAX / 1000`. Within those bounds the same number always
/// gives the same duration, which is all that is claimed of it.
#[verifier::external_body]
fn time_delta_seconds(seconds: i64) -> (duration: chrono::TimeDelta)
    requires
        -MAX_SECONDS <= seconds <= MAX_SECONDS,
    ensures
        duration == duration_of_seconds(seconds),
{
    chrono::TimeDelta::seconds(seconds)
}

/// The duration of `seconds` seconds, or the longest duration in its
/// direction where `seconds` is more than a duration can hold.
pub fn duration_from_seconds(seconds: i64) -> (duration: chrono::TimeDelta)
    ensures
        duration == duration_of_seconds(clamp_seconds(seconds as int)),
{
    if seconds > MAX_SECONDS {
        time_delta_seconds(MAX_SECONDS)
    } else if seconds < -MAX_SECONDS {
        time_delta_seconds(-MAX_SECONDS)
    } else {
        time_delta_seconds(seconds)
    }
}

} // verus!
