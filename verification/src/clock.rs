//! The wall clock, read as milliseconds since the Unix epoch.

use vstd::prelude::*;

verus! {

/// A point in time of the system clock.
#[verifier::external_type_specification]
#[verifier::external_body]
pub struct ExSystemTime(std::time::SystemTime);

/// The error of a clock that stands before the reference point.
#[verifier::external_type_specification]
#[verifier::external_body]
pub struct ExSystemTimeError(std::time::SystemTimeError);

/// Reads the system clock.
///
/// Trusted: `std::time::SystemTime::now`. Nothing is promised of the result.
#[verifier::external_body]
pub(crate) fn system_now() -> (now: std::time::SystemTime) {
    std::time::SystemTime::now()
}

/// The time from the Unix epoch to `now`, or the error of a clock set before
/// the epoch.
///
/// Trusted: `std::time::SystemTime::duration_since` with `UNIX_EPOCH`.
#[verifier::external_body]
pub(crate) fn since_epoch(now: &std::time::SystemTime) -> (elapsed: Result<
    std::time::Duration,
    std::time::SystemTimeError,
>) {
    now.duration_since(std::time::UNIX_EPOCH)
}

/// The largest number of whole milliseconds that a duration can hold: a
/// duration counts its seconds in 64 bits, and less than a second beside them.
pub open spec fn max_millis() -> u128 {
    18_446_744_073_709_551_615_999
}

/// The whole milliseconds of a duration.
///
/// Trusted: `std::time::Duration::as_millis`. A duration is a number of whole
/// seconds that fits 64 bits and a part of a second, so it has at most
/// `u64::MAX` times 1000 milliseconds and 999 more.
#[verifier::external_body]
pub(crate) fn whole_millis(elapsed: &std::time::Duration) -> (millis: u128)
    ensures
        millis <= max_millis(),
{
    elapsed.as_millis()
}

/// The timestamp for a clock reading: the milliseconds read, or zero where the
/// clock could not be read.
pub open spec fn timestamp_of(reading: Option<u128>) -> u128 {
    match reading {
        Some(millis) => millis,
        None => 0,
    }
}

/// Turns a clock reading into a timestamp. A clock that cannot be read gives
/// zero, so that signing never stops on it.
pub fn timestamp_from_reading(reading: Option<u128>) -> (timestamp: u128)
    ensures
        timestamp == timestamp_of(reading),
{
    match reading {
        Some(millis) => millis,
        None => 0,
    }
}

/// Returns the current time in milliseconds since the Unix epoch, or zero
/// where the system clock stands before the epoch. Whatever the clock says,
/// the result lies in the range of a duration.
pub fn current_timestamp_ms() -> (timestamp: u128)
    ensures
        timestamp <= max_millis(),
{
    let now = system_now();
    let reading = match since_epoch(&now) {
        Ok(elapsed) => Some(whole_millis(&elapsed)),
        Err(_) => None,
    };
    timestamp_from_reading(reading)
}

} // verus!
