//! The wall clock, read in whole seconds since the Unix epoch.

use std::time::{Duration, SystemTime, SystemTimeError};
use vstd::prelude::*;

verus! {

/// `std::time::SystemTime`, a moment of the system clock. Nothing is known
/// of a value of it.
#[verifier::external_type_specification]
#[verifier::external_body]
pub struct ExSystemTime(SystemTime);

/// `std::time::SystemTimeError`, the error of a clock that stands before the
/// moment it is compared with. Nothing is known of a value of it.
#[verifier::external_type_specification]
#[verifier::external_body]
pub struct ExSystemTimeError(SystemTimeError);

/// `SystemTime::now` reads the system clock. Nothing is claimed of the moment
/// it returns.
pub assume_specification[ SystemTime::now ]() -> (now: SystemTime);

/// `SystemTime::duration_since` measures the time from `earlier` to `moment`,
/// and fails when `earlier` is the later of the two. Nothing is claimed of
/// which it is, nor of the duration.
pub assume_specification[ SystemTime::duration_since ](
    moment: &SystemTime,
    earlier: SystemTime,
) -> (elapsed: Result<Duration, SystemTimeError>);

/// `Duration::as_secs` gives the whole seconds of a duration. Nothing is
/// claimed of their number.
pub assume_specification[ Duration::as_secs ](duration: &Duration) -> (seconds: u64);

/// The Unix epoch, 1970-01-01 00:00:00 UTC.
///
/// Trusted, not proved: the body hands out the constant
/// `SystemTime::UNIX_EPOCH`. Nothing is claimed of it.
#[verifier::external_body]
fn unix_epoch() -> (epoch: SystemTime) {
    SystemTime::UNIX_EPOCH
}

/// Why the clock could not be read as a time since the epoch.
#[derive(Debug, Clone, Copy, PartialEq, Eq, Structural)]
pub enum ClockError {
    /// The system clock stands before the Unix epoch.
    BeforeEpoch,
}

/// The whole seconds from the Unix epoch to `moment`, fractions of a second
/// dropped, or the error of a moment before the epoch.
///
/// A moment is opaque here, so the contract cannot say which number comes
/// back, only that no other error does.
pub fn seconds_since_epoch(moment: &SystemTime) -> (time: Result<u64, ClockError>)
    ensures
        time matches Err(error) ==> error == ClockError::BeforeEpoch,
{
    match moment.duration_since(unix_epoch()) {
        Ok(elapsed) => Ok(elapsed.as_secs()),
        Err(_) => Err(ClockError::BeforeEpoch),
    }
}

/// The current time of the system clock in whole seconds since the Unix
/// epoch.
pub fn unix_time() -> (time: Result<u64, ClockError>)
    ensures
        time matches Err(error) ==> error == ClockError::BeforeEpoch,
{
    let now: SystemTime = SystemTime::now();
    seconds_since_epoch(&now)
}

} // verus!
