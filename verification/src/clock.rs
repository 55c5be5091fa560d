//! Monotonic clock readings, in whole milliseconds.
use vstd::prelude::*;
use std::time::{Duration, Instant};

verus! {

/// `std::time::Instant`, carried through the library as an opaque value.
#[verifier::external_type_specification]
#[verifier::external_body]
pub struct ExInstant(Instant);

/// Calls `Instant::now`. The reading depends on the time of the call, so
/// nothing is stated of it.
#[verifier::external_body]
pub(crate) fn instant_now() -> Instant {
    Instant::now()
}

/// Calls `Instant::elapsed`: the time since `start`, which depends on the
/// time of the call, so nothing is stated of it.
#[verifier::external_body]
pub(crate) fn instant_elapsed(start: &Instant) -> Duration {
    start.elapsed()
}

/// Calls `Duration::as_millis`: the whole milliseconds in `d`. The duration
/// is opaque here, so nothing is stated of the count.
#[verifier::external_body]
pub(crate) fn duration_as_millis(d: &Duration) -> u128 {
    d.as_millis()
}

/// Whole milliseconds elapsed since `start`, saturated to `u64::MAX`.
///
/// The count comes from the clock at the time of the call, so no value is
/// promised; what becomes of the count is stated by `saturate_millis`.
pub(crate) fn millis_since(start: &Instant) -> (ms: u64) {
    let d = instant_elapsed(start);
    saturate_millis(duration_as_millis(&d))
}

/// A millisecond count narrowed to `u64`, saturated to `u64::MAX`.
pub(crate) fn saturate_millis(ms: u128) -> (r: u64)
    ensures
        r == if ms > u64::MAX as u128 {
            u64::MAX as int
        } else {
            ms as int
        },
{
    if ms > u64::MAX as u128 {
        u64::MAX
    } else {
        ms as u64
    }
}

} // verus!
