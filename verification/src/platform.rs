//! What the timer takes from std outside of what vstd specifies: the
//! error type of its configuration lookups and the monotonic clock.
use vstd::prelude::*;

verus! {

#[verifier::external_type_specification]
#[verifier::external_body]
pub struct ExIoError(std::io::Error);

#[verifier::external_type_specification]
#[verifier::external_body]
pub struct ExInstant(std::time::Instant);

/// Builds, with `std::io::Error::new`, an error of kind `NotFound`
/// carrying the given message. Nothing is stated of the error value:
/// it is opaque here.
#[verifier::external_body]
pub fn not_found_error(message: &str) -> std::io::Error {
    std::io::Error::new(std::io::ErrorKind::NotFound, message)
}

/// Reads the monotonic clock with `std::time::Instant::now`. Its
/// result depends on the time of the call, so nothing is stated of it.
#[verifier::external_body]
pub fn instant_now() -> std::time::Instant {
    std::time::Instant::now()
}

/// The time elapsed since `instant`, from `std::time::Instant::elapsed`.
/// It depends on the time of the call, so nothing is stated of it.
#[verifier::external_body]
pub fn elapsed_since(instant: &std::time::Instant) -> std::time::Duration {
    instant.elapsed()
}

/// The number of whole seconds of a duration, from
/// `std::time::Duration::as_secs`. The duration is opaque here, so
/// nothing is stated of the number.
#[verifier::external_body]
pub fn whole_secs(duration: &std::time::Duration) -> u64 {
    duration.as_secs()
}

} // verus!
