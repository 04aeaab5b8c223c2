//! The monotonic clock behind the launcher's uptime.

use vstd::prelude::*;

verus! {

/// A reading of the monotonic clock, `std::time::Instant`. Nothing is known
/// of what it holds.
#[verifier::external_type_specification]
#[verifier::external_body]
pub struct ExInstant(std::time::Instant);

/// `Instant::now` reads the clock. What it returns depends on the moment of
/// the call, so nothing is claimed of it.
pub assume_specification[ std::time::Instant::now ]() -> (now: std::time::Instant);

/// `Instant::elapsed` measures the time since the reading was taken. What it
/// returns depends on the moment of the call, so nothing is claimed of it.
pub assume_specification[ std::time::Instant::elapsed ](instant: &std::time::Instant) -> (elapsed:
    std::time::Duration);

} // verus!
