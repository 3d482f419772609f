//! The monotonic clock that a mood machine reads.

use vstd::prelude::*;
use std::time::{Duration, Instant};

verus! {

#[verifier::external_type_specification]
#[verifier::external_body]
pub struct ExInstant(Instant);

/// `Instant::now` of the standard library: the current reading of the
/// monotonic clock.  Nothing is claimed of the reading.
#[verifier::external_body]
pub(crate) fn instant_now() -> Instant {
    Instant::now()
}

/// `Instant::elapsed` of the standard library: the time that has passed since
/// `start` was read.  Nothing is claimed of its length.
#[verifier::external_body]
pub(crate) fn instant_elapsed(start: &Instant) -> Duration {
    start.elapsed()
}

/// `Duration::as_micros` of the standard library: the whole microseconds in
/// `span`.  Nothing is claimed of their number.
#[verifier::external_body]
pub(crate) fn duration_as_micros(span: &Duration) -> u128 {
    span.as_micros()
}

/// Microseconds since `epoch` was read, at most `u64::MAX`.
pub(crate) fn micros_since(epoch: &Instant) -> u64 {
    let span = instant_elapsed(epoch);
    let micros = duration_as_micros(&span);
    if micros > u64::MAX as u128 {
        u64::MAX
    } else {
        micros as u64
    }
}

} // verus!
