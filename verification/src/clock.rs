//! The monotonic clock. Nothing is known of a reading before it is taken, so
//! the functions that decide anything take the reading as an argument.

use crate::span::TimeSpan;
use std::time::Duration;
use std::time::Instant;
use vstd::prelude::*;

verus! {

/// A point on the monotonic clock; only the clock can tell how far back it lies.
#[verifier::external_type_specification]
#[verifier::external_body]
pub struct ExInstant(Instant);

/// `Instant::now`: the present point on the monotonic clock. Nothing is claimed of it.
#[verifier::external_body]
pub(crate) fn instant_now() -> Instant {
    Instant::now()
}

/// `Instant::elapsed`: the time that has passed since `start`. Nothing is claimed
/// of it: the answer is the clock's.
#[verifier::external_body]
pub(crate) fn instant_elapsed(start: &Instant) -> Duration {
    start.elapsed()
}

/// `Duration::as_nanos`: the whole duration in nanoseconds. Nothing is claimed of
/// the number; it is taken as the reading.
#[verifier::external_body]
pub(crate) fn duration_nanos(d: Duration) -> u128 {
    d.as_nanos()
}

/// Reads the clock: the time since `origin`.
pub(crate) fn read_since(origin: &Instant) -> TimeSpan {
    TimeSpan::from_nanos(duration_nanos(instant_elapsed(origin)))
}

} // verus!
