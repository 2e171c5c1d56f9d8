//! The system clock, in milliseconds since the epoch.

use std::time::{Duration, SystemTime, SystemTimeError, UNIX_EPOCH};
use vstd::prelude::*;

verus! {

#[verifier::external_type_specification]
#[verifier::external_body]
pub struct ExSystemTime(SystemTime);

#[verifier::external_type_specification]
#[verifier::external_body]
pub struct ExSystemTimeError(SystemTimeError);

/// `SystemTime::now` reads the system clock; nothing is known of the
/// instant it gives.
pub assume_specification[ SystemTime::now ]() -> (now: SystemTime)
;

/// `SystemTime::duration_since` measures the time from an earlier instant,
/// and fails where that instant is in fact the later one.
pub assume_specification[ SystemTime::duration_since ](
    instant: &SystemTime,
    earlier: SystemTime,
) -> (elapsed: Result<Duration, SystemTimeError>)
;

/// The most milliseconds that a span of time can hold: a `Duration` is a
/// number of seconds of 64 bits and less than one second more.
pub const MAX_CLOCK_MILLIS: u128 = 18_446_744_073_709_551_615_999;

/// `Duration::as_millis` gives the whole milliseconds of a span of time,
/// which are no more than a span can hold.
pub assume_specification[ Duration::as_millis ](span: &Duration) -> (millis: u128)
    ensures
        millis <= MAX_CLOCK_MILLIS,
;

/// The instant from which time is counted: `UNIX_EPOCH` of std.
#[verifier::external_body]
fn unix_epoch() -> SystemTime {
    UNIX_EPOCH
}

/// What a reading of the clock counts as: the milliseconds that were
/// measured, and zero where the clock stands before the epoch and nothing
/// could be measured.
pub open spec fn reading_millis(reading: Option<u128>) -> u128 {
    match reading {
        Some(millis) => millis,
        None => 0,
    }
}

/// The milliseconds of a reading of the clock; a clock set before the epoch
/// reads as zero.
pub fn millis_or_zero(reading: Option<u128>) -> (millis: u128)
    ensures
        millis == reading_millis(reading),
{
    match reading {
        Some(millis) => millis,
        None => 0,
    }
}

/// Milliseconds since the epoch by the system clock, read once; a clock set
/// before the epoch reads as zero. Whatever the clock shows, the reading is
/// one that a span of time can hold.
pub fn current_time_millis() -> (millis: u128)
    ensures
        millis <= MAX_CLOCK_MILLIS,
{
    let now = SystemTime::now();
    let reading = match now.duration_since(unix_epoch()) {
        Ok(elapsed) => Some(elapsed.as_millis()),
        Err(_) => None,
    };
    millis_or_zero(reading)
}

} // verus!
