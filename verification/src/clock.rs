//! The monotonic clock used for rate and ETA estimation, behind trusted
//! declarations: a captured instant is opaque, and nothing is assumed of
//! the time that passes between two readings.

use vstd::prelude::*;

verus! {

use std::time::Duration;
use std::time::Instant;

#[verifier::external_type_specification]
#[verifier::external_body]
pub struct ExInstant(Instant);

/// Relies on `std::time::Instant::now`: a reading of the monotonic clock,
/// of which nothing is assumed.
#[verifier::external_body]
pub(crate) fn monotonic_now() -> Instant {
    Instant::now()
}

/// Relies on `std::time::Instant::elapsed`: the time since `start`, of
/// which nothing is assumed.
#[verifier::external_body]
pub(crate) fn elapsed_since(start: &Instant) -> Duration {
    start.elapsed()
}

/// Relies on `std::time::Duration::as_millis`: the duration as a whole
/// number of milliseconds, of which nothing is assumed.
#[verifier::external_body]
pub(crate) fn duration_millis(d: &Duration) -> u128 {
    d.as_millis()
}

} // verus!
