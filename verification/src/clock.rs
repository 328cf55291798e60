//! The monotonic clock, as far as the rate limiter reads it.
//!
//! Nothing in this file is proved, and nothing is promised of what the clock says:
//! callers are verified for every reading.

use std::time::Instant;
use vstd::prelude::*;

verus! {

/// `std::time::Instant`, a moment on the monotonic clock. Nothing is said of it.
#[verifier::external_type_specification]
#[verifier::external_body]
pub struct ExInstant(Instant);

/// `Instant::now`: the present moment. Nothing is promised of it.
#[verifier::external_body]
pub(crate) fn clock_now() -> Instant {
    Instant::now()
}

/// `Instant::elapsed`, in nanoseconds: the time that has passed since `since`.
/// Nothing is promised of it.
#[verifier::external_body]
pub(crate) fn clock_elapsed_nanos(since: &Instant) -> u128 {
    since.elapsed().as_nanos()
}

} // verus!
