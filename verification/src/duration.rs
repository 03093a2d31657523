//! What the timer needs to know of a `std::time::Duration`.
//!
//! Verus sees a `Duration` as an opaque value. Contracts speak of a duration
//! through the number of nanoseconds it holds.

use std::time::Duration;
use vstd::prelude::*;

verus! {

/// The total number of nanoseconds that `d` holds: the result of
/// `Duration::as_nanos`.
pub uninterp spec fn duration_nanos(d: Duration) -> u128;

/// The length of `d` in nanoseconds, as a natural number.
pub open spec fn nanos(d: Duration) -> nat {
    duration_nanos(d) as nat
}

/// `Duration::as_nanos` returns the total number of nanoseconds of the
/// duration. It gives the same number for the same duration, which is all
/// that is assumed here.
pub assume_specification[ Duration::as_nanos ](d: &Duration) -> (n: u128)
    ensures
        n == duration_nanos(*d),
;

/// `Duration::from_secs` builds a duration of `secs` whole seconds, so it
/// holds a thousand million nanoseconds for each of them.
pub assume_specification[ Duration::from_secs ](secs: u64) -> (d: Duration)
    ensures
        duration_nanos(d) == secs * 1_000_000_000,
;

} // verus!
