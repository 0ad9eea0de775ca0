//! Trident's core: the rules behind the floating orb, its saved position,
//! the database schema migrations and the platform decisions, as verified code.
pub mod config;
pub mod db;
pub mod error;
pub mod logging;
pub mod platform;
pub mod state;
pub mod windows;

use vstd::prelude::*;
use std::time::{Duration, SystemTime, SystemTimeError};

use crate::error::AppError;

verus! {

#[verifier::external_type_specification]
#[verifier::external_body]
pub struct ExSystemTime(std::time::SystemTime);

#[verifier::external_type_specification]
#[verifier::external_body]
pub struct ExSystemTimeError(std::time::SystemTimeError);

/// `std::time::SystemTime::now`: the wall clock, of which nothing is claimed.
#[verifier::external_body]
fn system_now() -> (now: SystemTime) {
    SystemTime::now()
}

/// `std::time::SystemTime::duration_since(UNIX_EPOCH)`: fails when `time` is
/// before 1970. Nothing is claimed of the outcome.
#[verifier::external_body]
fn since_unix_epoch(time: SystemTime) -> (elapsed: Result<Duration, SystemTimeError>) {
    time.duration_since(std::time::UNIX_EPOCH)
}

/// `std::time::Duration::as_millis`: the whole milliseconds in `duration`.
#[verifier::external_body]
fn whole_millis(duration: &Duration) -> (millis: u128) {
    duration.as_millis()
}

/// A millisecond count as an `i64`, or an `Internal` error when it does not fit.
pub fn millis_as_i64(millis: u128) -> (converted: Result<i64, AppError>)
    ensures
        converted is Ok <==> millis <= i64::MAX,
        converted matches Ok(value) ==> value == millis,
        converted matches Err(error) ==> error is Internal,
{
    match i64::try_from(millis) {
        Ok(value) => Ok(value),
        Err(error) => Err(AppError::Internal(error.to_string())),
    }
}

/// The current time in Unix milliseconds, never negative. A clock before 1970, or one too far
/// ahead for an `i64`, is an `Internal` error.
pub fn unix_millis() -> (millis: Result<i64, AppError>)
    ensures
        millis matches Err(error) ==> error is Internal,
        millis matches Ok(value) ==> value >= 0,
{
    let duration = match since_unix_epoch(system_now()) {
        Ok(duration) => duration,
        Err(error) => return Err(AppError::Internal(error.to_string())),
    };
    millis_as_i64(whole_millis(&duration))
}

} // verus!
