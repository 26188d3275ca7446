//! Reading the signing timestamp from the system clock.
use crate::error::EnclaveError;
use std::time::{Duration, SystemTime, SystemTimeError};
use vstd::prelude::*;

verus! {

#[verifier::external_type_specification]
#[verifier::external_body]
pub struct ExSystemTime(SystemTime);

#[verifier::external_type_specification]
#[verifier::external_body]
pub struct ExSystemTimeError(SystemTimeError);

/// Relies on std's `SystemTime::now`: the current wall-clock time, of which
/// nothing is known in advance.
#[verifier::external_body]
fn system_now() -> SystemTime {
    SystemTime::now()
}

/// Relies on std's `SystemTime::duration_since` against `UNIX_EPOCH`, which
/// fails where the clock reads earlier than the epoch.
#[verifier::external_body]
fn since_unix_epoch(t: &SystemTime) -> Result<Duration, SystemTimeError> {
    t.duration_since(std::time::UNIX_EPOCH)
}

/// Relies on std's `Duration::as_millis`: the whole milliseconds of `d`.
#[verifier::external_body]
fn whole_millis(d: &Duration) -> u128 {
    d.as_millis()
}

/// Turns a reading in milliseconds since the Unix epoch into a timestamp;
/// a reading past `u64::MAX` is a clock error.
pub fn timestamp_from_millis(ms: u128) -> (r: Result<u64, EnclaveError>)
    ensures
        ms <= u64::MAX ==> r == Ok::<u64, EnclaveError>(ms as u64),
        ms > u64::MAX ==> r == Err::<u64, EnclaveError>(EnclaveError::ClockError),
{
    if ms <= u64::MAX as u128 {
        Ok(ms as u64)
    } else {
        Err(EnclaveError::ClockError)
    }
}

/// The timestamp a clock reading gives: `reading` is the milliseconds since
/// the Unix epoch, `None` where the clock reads before the epoch.
pub open spec fn clock_timestamp(reading: Option<u128>) -> Option<u64> {
    match reading {
        Some(ms) => if ms <= u64::MAX {
            Some(ms as u64)
        } else {
            None
        },
        None => None,
    }
}

/// Reads the system clock: the whole milliseconds since the Unix epoch, or
/// `None` where the clock reads before the epoch.
pub fn read_clock_millis() -> Option<u128> {
    let now = system_now();
    match since_unix_epoch(&now) {
        Ok(d) => Some(whole_millis(&d)),
        Err(_) => None,
    }
}

/// The timestamp of a clock reading, or a clock error where there is none.
pub fn timestamp_of_reading(reading: Option<u128>) -> (r: Result<u64, EnclaveError>)
    ensures
        match clock_timestamp(reading) {
            Some(t) => r == Ok::<u64, EnclaveError>(t),
            None => r == Err::<u64, EnclaveError>(EnclaveError::ClockError),
        },
{
    match reading {
        Some(ms) => timestamp_from_millis(ms),
        None => Err(EnclaveError::ClockError),
    }
}

/// The current time in milliseconds since the Unix epoch, or a clock error
/// where the clock reads before the epoch or past what a `u64` holds.
pub fn current_timestamp_ms() -> (r: Result<u64, EnclaveError>)
    ensures
        r is Err ==> r == Err::<u64, EnclaveError>(EnclaveError::ClockError),
{
    timestamp_of_reading(read_clock_millis())
}

} // verus!
