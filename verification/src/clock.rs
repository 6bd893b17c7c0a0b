//! The monotonic clock of `std::time`
use vstd::prelude::*;

use std::time::{Duration, Instant};

verus! {

/// `std::time::Instant`, a point on the monotonic clock
#[verifier::external_type_specification]
#[verifier::external_body]
pub struct ExInstant(Instant);

/// `Instant::now`. Nothing is claimed of the result: it depends on the
/// time of the call.
#[verifier::external_body]
pub(crate) fn instant_now() -> Instant {
    Instant::now()
}

/// `Instant::elapsed`. Nothing is claimed of the result: it depends on the
/// time of the call.
#[verifier::external_body]
pub(crate) fn instant_elapsed(i: &Instant) -> Duration {
    i.elapsed()
}

/// The length of a `Duration`, in nanoseconds
pub uninterp spec fn duration_nanos(d: Duration) -> nat;

/// `Duration::from_micros`: a duration of `us` microseconds
#[verifier::external_body]
pub(crate) fn duration_from_micros(us: u64) -> (d: Duration)
    ensures
        duration_nanos(d) == us * 1000,
{
    Duration::from_micros(us)
}

} // verus!
