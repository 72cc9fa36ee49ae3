//! What holds of durations in nanoseconds.
use std::time::Duration;
use vstd::prelude::*;

verus! {

/// A duration comes out with the nanoseconds it has, unless 64 bits cannot hold them: then
/// as many as they can.
pub proof fn law_nanoseconds_are_kept(duration: Duration, r: u64)
    requires
        call_ensures(crate::clock::clock_nanoseconds, (duration,), r),
    ensures
        crate::clock::duration_nanos(duration) <= u64::MAX ==> r == crate::clock::duration_nanos(
            duration,
        ),
        crate::clock::duration_nanos(duration) > u64::MAX ==> r == u64::MAX,
{
}

/// Cutting a count of nanoseconds down to 64 bits changes it only if it does not fit.
pub proof fn law_fitting_counts_are_kept(nanos: nat)
    ensures
        nanos <= u64::MAX ==> crate::clock::saturated(nanos) == nanos,
        nanos > u64::MAX ==> crate::clock::saturated(nanos) == u64::MAX,
{
}

/// A longer duration never comes out shorter.
pub proof fn law_longer_is_no_less(a: Duration, b: Duration, x: u64, y: u64)
    requires
        call_ensures(crate::clock::clock_nanoseconds, (a,), x),
        call_ensures(crate::clock::clock_nanoseconds, (b,), y),
        crate::clock::duration_nanos(a) <= crate::clock::duration_nanos(b),
    ensures
        x <= y,
        y < u64::MAX && crate::clock::duration_nanos(a) < crate::clock::duration_nanos(b) ==> x < y,
{
}

}
