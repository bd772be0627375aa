//! Trusted access to the wall clock, for the operation timing `put` reports.

use vstd::prelude::*;

verus! {

#[verifier::external_type_specification]
#[verifier::external_body]
pub struct ExInstant(std::time::Instant);

/// Relies on std::time::Instant::now: a measurement of the monotonic clock.
/// Nothing can be promised of the value: it depends on when the call runs.
#[verifier::external_body]
pub(crate) fn instant_now() -> std::time::Instant {
    std::time::Instant::now()
}

/// Relies on std::time::Instant::elapsed: the time between `start` and now.
/// Nothing can be promised of the value: it depends on when the call runs.
#[verifier::external_body]
pub(crate) fn instant_elapsed(start: &std::time::Instant) -> std::time::Duration {
    start.elapsed()
}

} // verus!
