//! Monotonic millisecond clock used for toast lifetimes, circuit-breaker pauses and
//! data-source ages.
use vstd::prelude::*;
use std::time::Instant;

verus! {

/// `std::time::Instant`, carried through as an opaque value.
#[verifier::external_type_specification]
#[verifier::external_body]
pub struct ExInstant(Instant);

/// `Instant::now()`: the current monotonic instant. Nothing is stated of the value.
#[verifier::external_body]
pub(crate) fn instant_now() -> (r: Instant) {
    Instant::now()
}

/// `Instant::elapsed()` converted to whole milliseconds (saturating at `u64::MAX`).
/// Nothing is stated of the value, which depends on the passage of time.
#[verifier::external_body]
pub(crate) fn instant_elapsed_millis(origin: &Instant) -> (r: u64) {
    u64::try_from(origin.elapsed().as_millis()).unwrap_or(u64::MAX)
}

/// A monotonic clock reading milliseconds since its creation.
#[derive(Debug, Clone, Copy)]
pub struct MonotonicClock {
    origin: Instant,
}

impl MonotonicClock {
    /// A clock whose origin is now.
    pub fn new() -> Self {
        MonotonicClock { origin: instant_now() }
    }

    /// Milliseconds elapsed since the clock was created.
    pub fn now_ms(&self) -> u64 {
        instant_elapsed_millis(&self.origin)
    }
}

} // verus!
