use vstd::prelude::*;
use std::time::Duration;
use std::time::Instant;
use std::time::SystemTime;

verus! {

/// The wall-clock instant type of std; opaque to the proofs.
#[verifier::external_type_specification]
#[verifier::external_body]
pub struct ExInstant(Instant);

/// The system clock type of std; opaque to the proofs.
#[verifier::external_type_specification]
#[verifier::external_body]
pub struct ExSystemTime(SystemTime);

/// Calls `std::time::SystemTime::now`. What it returns depends on the time at
/// the call, so nothing is claimed of it.
#[verifier::external_body]
pub(crate) fn system_now() -> SystemTime {
    SystemTime::now()
}

/// Calls `std::time::SystemTime::duration_since` with the Unix epoch: the time
/// from the epoch to `t`, or zero where `t` lies before the epoch. Nothing is
/// claimed of the duration.
#[verifier::external_body]
pub(crate) fn since_unix_epoch(t: &SystemTime) -> Duration {
    t.duration_since(std::time::UNIX_EPOCH).unwrap_or_default()
}

/// Calls `std::time::Instant::now`. What it returns depends on the time at the
/// call, so nothing is claimed of it.
#[verifier::external_body]
pub(crate) fn instant_now() -> Instant {
    Instant::now()
}

/// Calls `std::time::Instant::elapsed`: the time passed since `start`. It depends
/// on the time at the call, so nothing is claimed of it.
#[verifier::external_body]
pub(crate) fn instant_elapsed(start: &Instant) -> Duration {
    start.elapsed()
}

/// Calls `std::time::Duration::as_secs`: the whole seconds of `d`. A duration is
/// opaque here, so nothing is claimed of the number.
#[verifier::external_body]
pub(crate) fn duration_secs(d: &Duration) -> u64 {
    d.as_secs()
}

} // verus!
