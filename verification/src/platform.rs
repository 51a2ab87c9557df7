use vstd::prelude::*;

use std::time::Instant;

verus! {

/// A reading of the process's monotonic clock, opaque to the model; only the
/// elapsed time drawn from it below is ever inspected.
#[verifier::external_type_specification]
#[verifier::external_body]
pub struct ExInstant(Instant);

/// Relies on std::time::Instant::now: a fresh reading of the monotonic
/// clock. The value depends on the moment of the call, so nothing is
/// promised of it.
#[verifier::external_body]
pub(crate) fn instant_now() -> Instant {
    Instant::now()
}

/// Relies on std::time::Instant::elapsed: the time since `since`, converted
/// to nanoseconds. The value depends on the moment of the call, so nothing
/// is promised of it.
#[verifier::external_body]
pub(crate) fn nanos_since(since: &Instant) -> u64 {
    since.elapsed().as_nanos() as u64
}

/// Relies on rand::random: a byte drawn from the thread-local generator.
/// The value depends on the generator's state, so nothing is promised of it.
#[verifier::external_body]
pub(crate) fn random_byte() -> u8 {
    rand::random::<u8>()
}

} // verus!
