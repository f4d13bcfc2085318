//! The wall clock, read as nanoseconds since the Unix epoch.
//!
//! The three private functions below hold the calls into `std::time`. Nothing
//! is claimed of what they return: the clock may step in either direction,
//! and everything built on it is proved for every instant.

use std::time::{Duration, SystemTime, SystemTimeError, UNIX_EPOCH};
use vstd::prelude::*;

verus! {

#[verifier::external_type_specification]
#[verifier::external_body]
pub struct ExSystemTime(SystemTime);

#[verifier::external_type_specification]
#[verifier::external_body]
pub struct ExSystemTimeError(SystemTimeError);

/// `std::time::SystemTime::now`: the current reading of the system clock.
/// No property of the reading is assumed.
#[verifier::external_body]
fn system_now() -> SystemTime {
    SystemTime::now()
}

/// `std::time::SystemTime::duration_since` against `UNIX_EPOCH`: the time
/// from the epoch to `instant`, or an error when `instant` lies before it.
/// No property of the result is assumed.
#[verifier::external_body]
fn since_unix_epoch(instant: &SystemTime) -> Result<Duration, SystemTimeError> {
    instant.duration_since(UNIX_EPOCH)
}

/// `std::time::Duration::as_nanos`: the span in whole nanoseconds. No property
/// of the number is assumed.
#[verifier::external_body]
fn whole_nanos(span: &Duration) -> u128 {
    span.as_nanos()
}

/// The current time in nanoseconds since the Unix epoch. A clock that is set
/// before the epoch reads as the epoch itself.
pub fn unix_nanos_now() -> u128 {
    let instant = system_now();
    match since_unix_epoch(&instant) {
        Ok(span) => whole_nanos(&span),
        Err(_) => 0,
    }
}

} // verus!
