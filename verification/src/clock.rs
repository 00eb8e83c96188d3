//! The host's clock.

use vstd::prelude::*;
use anchor_lang::prelude::{Clock, ProgramError, SolanaSysvar};
use crate::error::PlatformError;

verus! {

/// The host's `ProgramError`, carried from the clock to the operation that
/// asked for the time. Nothing is known of its contents.
#[verifier::external_type_specification]
#[verifier::external_body]
pub struct ExProgramError(ProgramError);

/// Calls `Clock::get` and hands out the reading's `unix_timestamp`, or the
/// host's error. Nothing is claimed of either: the reading is the host's.
#[verifier::external_body]
fn read_clock() -> (r: Result<i64, ProgramError>) {
    match Clock::get() {
        Ok(clock) => Ok(clock.unix_timestamp),
        Err(e) => Err(e),
    }
}

/// What an operation makes of the clock's answer: the time in seconds, or
/// `ClockUnavailable` whatever the host's error.
pub fn unix_timestamp() -> (r: Result<i64, PlatformError>)
    ensures
        r is Err ==> r == Err::<i64, _>(PlatformError::ClockUnavailable),
{
    timestamp_of(read_clock())
}

/// What each answer of the clock becomes: a reading is the time in seconds,
/// and any error of the host is `ClockUnavailable`.
pub open spec fn timestamp_outcome(reading: Result<i64, ProgramError>) -> Result<
    i64,
    PlatformError,
> {
    match reading {
        Ok(seconds) => Ok(seconds),
        Err(_) => Err(PlatformError::ClockUnavailable),
    }
}

/// Turns the clock's answer into the time that an operation records, or into
/// the failure that it reports.
pub fn timestamp_of(reading: Result<i64, ProgramError>) -> (r: Result<i64, PlatformError>)
    ensures
        r == timestamp_outcome(reading),
{
    match reading {
        Ok(seconds) => Ok(seconds),
        Err(_) => Err(PlatformError::ClockUnavailable),
    }
}

} // verus!
