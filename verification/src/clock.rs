//! The clock by which objects age.

use actix_web::rt::time::Instant;
use vstd::prelude::*;

verus! {

/// The number of nanoseconds in a second.
pub const NANOS_PER_SEC: u128 = 1_000_000_000;

/// A reading of the monotonic clock.
#[verifier::external_type_specification]
#[verifier::external_body]
pub struct ExInstant(Instant);

/// Calls `Instant::now`. Nothing is stated of the reading, which is the time's to give.
#[verifier::external_body]
pub(crate) fn current_instant() -> (reading: Instant)
{
    Instant::now()
}

/// Calls `Instant::elapsed`: the nanoseconds since `start`. Nothing is stated of them, which
/// are the time's to give.
#[verifier::external_body]
pub(crate) fn nanos_since(start: &Instant) -> (nanos: u128)
{
    start.elapsed().as_nanos()
}

/// Whether `nanos` is what the clock shows for the time since `start`: a value that
/// `nanos_since` returned for it.
pub closed spec fn is_reading(start: Instant, nanos: u128) -> bool {
    call_ensures(nanos_since, (&start,), nanos)
}

/// Whether a clock that was started at `start` and last showed `before` was read to show
/// `after`: the time since the start, unless that lies before the latest reading.
pub open spec fn was_read(start: Instant, before: u128, after: u128) -> bool {
    exists|nanos: u128| #[trigger]
        is_reading(start, nanos) && after == if nanos > before {
            nanos
        } else {
            before
        }
}

/// A reading is what `nanos_since` returns, and nothing else is.
pub(crate) proof fn law_readings(start: Instant, nanos: u128)
    ensures
        is_reading(start, nanos) <==> call_ensures(nanos_since, (&start,), nanos),
{
}

} // verus!
