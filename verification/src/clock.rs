//! Durations in nanoseconds.
use std::time::Duration;
use vstd::prelude::*;

verus! {

/// The number of nanoseconds in a duration, as `Duration::as_nanos` gives it.
pub uninterp spec fn duration_nanos(duration: Duration) -> nat;

/// `Duration::as_nanos`: the total number of nanoseconds in the duration. It is a
/// function of the duration alone, and [`duration_nanos`] names it.
pub assume_specification[ Duration::as_nanos ](duration: &Duration) -> (nanos: u128)
    ensures
        nanos == duration_nanos(*duration),
;

/// `Duration::from_secs`: a duration of whole seconds, each of which has a thousand
/// million nanoseconds.
pub assume_specification[ Duration::from_secs ](secs: u64) -> (duration: Duration)
    ensures
        duration_nanos(duration) == secs * 1_000_000_000,
;

/// A count of nanoseconds cut down to what 64 bits can hold.
pub open spec fn saturated(nanos: nat) -> u64 {
    if nanos <= u64::MAX {
        nanos as u64
    } else {
        u64::MAX
    }
}

/// The nanoseconds of a duration, as many as 64 bits can hold.
pub fn clock_nanoseconds(duration: Duration) -> (r: u64)
    ensures
        r == saturated(duration_nanos(duration)),
        duration_nanos(duration) <= u64::MAX ==> r == duration_nanos(duration),
        duration_nanos(duration) > u64::MAX ==> r == u64::MAX,
{
    match u64::try_from(duration.as_nanos()) {
        Ok(nanos) => nanos,
        Err(_) => u64::MAX,
    }
}

}
