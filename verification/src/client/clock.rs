//! The wall clock, read as whole seconds since the Unix epoch.

use vstd::prelude::*;

verus! {

/// A reading of the system clock: opaque.
#[verifier::external_type_specification]
#[verifier::external_body]
pub struct ExSystemTime(std::time::SystemTime);

/// The error of `SystemTime::duration_since`: opaque.
#[verifier::external_type_specification]
#[verifier::external_body]
pub struct ExSystemTimeError(std::time::SystemTimeError);

/// `SystemTime::now`: the reading differs from call to call, so nothing is
/// claimed of it.
pub assume_specification[ std::time::SystemTime::now ]() -> (t: std::time::SystemTime)
;

/// `SystemTime::duration_since`, measured from `UNIX_EPOCH`. It fails where
/// the reading lies before the epoch; nothing is claimed of either outcome.
#[verifier::external_body]
fn since_unix_epoch(t: &std::time::SystemTime) -> (r: Result<
    core::time::Duration,
    std::time::SystemTimeError,
>) {
    t.duration_since(std::time::UNIX_EPOCH)
}

/// `Duration::as_secs`: the whole seconds of a duration. A `Duration` is
/// opaque here, so nothing is claimed of the number.
pub assume_specification[ core::time::Duration::as_secs ](d: &core::time::Duration) -> (s: u64)
;

/// The current time in seconds since the Unix epoch; 0 where the clock
/// reads a time before the epoch.
pub fn unix_time() -> u64 {
    let reading = std::time::SystemTime::now();
    match since_unix_epoch(&reading) {
        Ok(elapsed) => elapsed.as_secs(),
        Err(_) => 0,
    }
}

} // verus!
