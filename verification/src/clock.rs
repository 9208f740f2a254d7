//! The clock a card reads its uptime from.

use vstd::prelude::*;
use std::time::{Duration, Instant};

verus! {

#[verifier::external_type_specification]
#[verifier::external_body]
pub struct ExInstant(Instant);

/// The `Duration` of `nanos` nanoseconds, as `Duration::from_nanos` builds
/// it; `duration_from_nanos(0)` is `Duration::ZERO`.
pub uninterp spec fn duration_from_nanos(nanos: u64) -> Duration;

/// Trusted: calls `Duration::from_nanos`, whose result depends on `nanos`
/// alone.
#[verifier::external_body]
pub(crate) fn duration_of_nanos(nanos: u64) -> (d: Duration)
    ensures
        d == duration_from_nanos(nanos),
{
    Duration::from_nanos(nanos)
}

/// The zero duration.
pub(crate) fn zero_duration() -> (d: Duration)
    ensures
        d == duration_from_nanos(0),
{
    duration_of_nanos(0)
}

/// The current instant.
///
/// Trusted: calls `Instant::now`. Nothing is stated of the result: it is
/// read from the machine's clock.
#[verifier::external_body]
pub(crate) fn now() -> Instant {
    Instant::now()
}

/// The time passed since `start`.
///
/// Trusted: calls `Instant::elapsed`. Nothing is stated of the result: it
/// depends on the machine's clock.
#[verifier::external_body]
pub(crate) fn elapsed_since(start: &Instant) -> Duration {
    start.elapsed()
}

} // verus!
