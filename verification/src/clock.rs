//! The wall clock that stamps new evidence records.

use vstd::prelude::*;
use std::time::{Duration, SystemTime, UNIX_EPOCH};

verus! {

#[verifier::external_type_specification]
#[verifier::external_body]
pub struct ExSystemTime(SystemTime);

/// `SystemTime::now`: the current wall-clock time. It differs from call to
/// call, so nothing is promised of it.
#[verifier::external_body]
fn system_now() -> SystemTime {
    SystemTime::now()
}

/// `SystemTime::duration_since` the Unix epoch: the time elapsed since the
/// epoch, or `None` when the clock stands before it.
#[verifier::external_body]
fn since_epoch(now: &SystemTime) -> Option<Duration> {
    match now.duration_since(UNIX_EPOCH) {
        Ok(elapsed) => Some(elapsed),
        Err(_) => None,
    }
}

/// `Duration::as_micros`: the whole microseconds in `elapsed`.
#[verifier::external_body]
fn whole_micros(elapsed: &Duration) -> u128 {
    elapsed.as_micros()
}

/// The timestamp that stands for a clock reading: the low 64 bits of the
/// microseconds elapsed since the epoch, and 0 when there is no reading.
pub open spec fn spec_timestamp_from_micros(elapsed: Option<u128>) -> u64 {
    match elapsed {
        Some(micros) => (micros % 0x1_0000_0000_0000_0000) as u64,
        None => 0,
    }
}

/// Turns a clock reading, in microseconds since the epoch, into a timestamp.
/// A clock that gave no reading yields 0; it is never an error.
#[verifier::when_used_as_spec(spec_timestamp_from_micros)]
pub fn timestamp_from_micros(elapsed: Option<u128>) -> (timestamp_us: u64)
    ensures
        timestamp_us == spec_timestamp_from_micros(elapsed),
{
    match elapsed {
        Some(micros) => (micros % 0x1_0000_0000_0000_0000) as u64,
        None => 0,
    }
}

/// The current time in microseconds since the Unix epoch, or 0 when the
/// clock cannot be read.
pub(crate) fn current_timestamp_us() -> u64 {
    let now = system_now();
    match since_epoch(&now) {
        Some(elapsed) => timestamp_from_micros(Some(whole_micros(&elapsed))),
        None => timestamp_from_micros(None),
    }
}

} // verus!
