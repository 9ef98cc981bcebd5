//! Opaque readings of the monotonic clock, used only to time
//! operations; nothing in the library's logic depends on the values
//! read.

use std::time::Instant;
use vstd::prelude::*;

verus! {

/// Declares `std::time::Instant` so that a clock reading can be held
/// in a field and passed around; the value itself stays opaque.
#[verifier::external_type_specification]
#[verifier::external_body]
pub struct ExInstant(Instant);

/// Relies on `Instant::now`: an opaque reading of the monotonic
/// clock.  The result depends on the time of the call, so nothing is
/// assumed about it.
#[verifier::external_body]
pub(crate) fn clock_now() -> Instant {
    Instant::now()
}

/// Relies on `Instant::elapsed`: the time since the given reading,
/// converted to nanoseconds.  The result depends on the clock, so
/// nothing is assumed about it.
#[verifier::external_body]
pub(crate) fn elapsed_nanos(start: &Instant) -> u128 {
    start.elapsed().as_nanos()
}

} // verus!
