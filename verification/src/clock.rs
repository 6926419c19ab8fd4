//! The system clock as a source of the present time.

use crate::error::TotpError;
use std::time::{Duration, SystemTimeError, UNIX_EPOCH};
use vstd::prelude::*;

verus! {

/// The error of `std::time::SystemTime::elapsed`, declared so that it can be passed on
/// and matched; nothing is said of what it holds.
#[verifier::external_type_specification]
#[verifier::external_body]
pub struct ExSystemTimeError(SystemTimeError);

/// The whole seconds that a duration holds: its length in seconds rounded down, the
/// fraction of a second left out.
pub uninterp spec fn whole_seconds(elapsed: Duration) -> u64;

/// `std::time::Duration::as_secs`. Trusted, not proved: the result is the number of
/// whole seconds that [`whole_seconds`] names, a function of the duration alone.
pub assume_specification[ Duration::as_secs ](duration: &Duration) -> (seconds: u64)
    ensures
        seconds == whole_seconds(*duration),
;

/// Calls `std::time::SystemTime::elapsed` on `std::time::UNIX_EPOCH`: the time from
/// the Unix epoch to the system clock's present reading, or an error where the clock
/// reads a moment before the epoch. The reading changes from call to call, so nothing
/// is said of it.
#[verifier::external_body]
fn time_since_epoch() -> (reading: Result<Duration, SystemTimeError>) {
    UNIX_EPOCH.elapsed()
}

/// Turns a reading of the clock, taken as the time that has passed since the Unix
/// epoch, into whole seconds: the fraction of a second is dropped. A clock that reads
/// a moment before the epoch gives no time at all.
pub fn unix_time_of(reading: Result<Duration, SystemTimeError>) -> (result: Result<u64, TotpError>)
    ensures
        reading matches Ok(elapsed) ==> result == Ok::<u64, TotpError>(whole_seconds(elapsed)),
        reading is Err <==> result == Err::<u64, TotpError>(TotpError::ClockBeforeEpoch),
{
    match reading {
        Ok(elapsed) => Ok(elapsed.as_secs()),
        Err(_) => Err(TotpError::ClockBeforeEpoch),
    }
}

/// Reads the system clock: the whole seconds that have passed since the Unix epoch,
/// the first second of 1970 in universal time.
///
/// A clock that reads a moment before the epoch is a fault of the machine's
/// configuration, and the only way in which this can fail.
pub fn current_unix_time() -> (result: Result<u64, TotpError>)
    ensures
        result matches Err(error) ==> error == TotpError::ClockBeforeEpoch,
{
    unix_time_of(time_since_epoch())
}

} // verus!
