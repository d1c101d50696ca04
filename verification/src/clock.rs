//! Readings of the clocks of the machine.
//!
//! A reading may be anything: the functions here only convert it, and whatever follows from a
//! reading is decided by functions that take it as an argument.

use crate::proto::Timestamp;
use std::time::{Duration, Instant, SystemTime, SystemTimeError, UNIX_EPOCH};
use vstd::prelude::*;

verus! {

/// `std::time::SystemTime`, carried unseen.
#[verifier::external_type_specification]
#[verifier::external_body]
pub struct ExSystemTime(SystemTime);

/// `std::time::SystemTimeError`, carried unseen.
#[verifier::external_type_specification]
#[verifier::external_body]
pub struct ExSystemTimeError(SystemTimeError);

/// `std::time::Instant`, carried unseen.
#[verifier::external_type_specification]
#[verifier::external_body]
pub struct ExInstant(Instant);

/// `SystemTime::now`: the time of day. Nothing is claimed of it.
pub assume_specification[ SystemTime::now ]() -> (now: SystemTime)
;

/// `Instant::now`: a reading of the monotonic clock. Nothing is claimed of it.
pub assume_specification[ Instant::now ]() -> (now: Instant)
;

/// `Instant::elapsed`: the time since a reading. It depends on when it is asked, and nothing is
/// claimed of it.
pub assume_specification[ Instant::elapsed ](start: &Instant) -> (elapsed: Duration)
;

/// `Duration::as_secs`: the whole seconds of a duration. A duration is carried unseen, so
/// nothing is claimed of the number.
pub assume_specification[ Duration::as_secs ](duration: &Duration) -> (secs: u64)
;

/// `Duration::subsec_nanos`: the fractional part of a duration, which is less than a second.
/// A duration is carried unseen, so nothing more is claimed of the number.
pub assume_specification[ Duration::subsec_nanos ](duration: &Duration) -> (nanos: u32)
    ensures
        nanos < 1_000_000_000,
;

/// `SystemTime::duration_since`, counted from `UNIX_EPOCH`. It fails for a time before the
/// epoch. Both types are carried unseen, so nothing is claimed of the outcome.
#[verifier::external_body]
fn since_epoch(time: &SystemTime) -> (result: Result<Duration, SystemTimeError>) {
    time.duration_since(UNIX_EPOCH)
}

/// Whether `elapsed` is what one reading of the clock gave: the time since the epoch at some
/// `SystemTime::now`, or the failure where that time was before the epoch.
pub closed spec fn is_reading(elapsed: Result<Duration, SystemTimeError>) -> bool {
    exists|now: SystemTime| #[trigger]
        call_ensures(SystemTime::now, (), now) && call_ensures(since_epoch, (&now,), elapsed)
}

/// Whether `secs` are the whole seconds of a reading. A time before the epoch counts as the epoch.
pub open spec fn reads_secs(elapsed: Result<Duration, SystemTimeError>, secs: u64) -> bool {
    match elapsed {
        Ok(duration) => call_ensures(Duration::as_secs, (&duration,), secs),
        Err(_) => secs == 0,
    }
}

/// Whether `nanos` are the nanoseconds beyond the whole seconds of a reading.
pub open spec fn reads_nanos(elapsed: Result<Duration, SystemTimeError>, nanos: u32) -> bool {
    match elapsed {
        Ok(duration) => call_ensures(Duration::subsec_nanos, (&duration,), nanos),
        Err(_) => nanos == 0,
    }
}

/// Whether `secs` were read from the clock.
pub open spec fn is_clock_secs(secs: u64) -> bool {
    exists|elapsed: Result<Duration, SystemTimeError>| #[trigger]
        is_reading(elapsed) && reads_secs(elapsed, secs)
}

/// Whether `timestamp` was read from the clock.
pub open spec fn is_clock_time(timestamp: Timestamp) -> bool {
    exists|elapsed: Result<Duration, SystemTimeError>, secs: u64, nanos: u32|
        is_reading(elapsed) && #[trigger] reads_secs(elapsed, secs) && #[trigger] reads_nanos(
            elapsed,
            nanos,
        ) && timestamp == timestamp_at(secs, nanos)
}

/// The timestamp for a number of seconds and nanoseconds since the epoch.
pub open spec fn timestamp_at(secs: u64, nanos: u32) -> Timestamp {
    Timestamp { seconds: secs as i64, nanos: nanos as i32 }
}

/// The timestamp for a number of seconds and nanoseconds since the epoch.
pub fn timestamp_of(secs: u64, nanos: u32) -> (timestamp: Timestamp)
    ensures
        timestamp == timestamp_at(secs, nanos),
{
    Timestamp { seconds: secs as i64, nanos: nanos as i32 }
}

/// Reads the clock.
fn reading() -> (elapsed: Result<Duration, SystemTimeError>)
    ensures
        is_reading(elapsed),
{
    let now = SystemTime::now();
    since_epoch(&now)
}

/// The current time of day. A clock set before the epoch reads as the epoch.
pub fn current_timestamp() -> (timestamp: Timestamp)
    ensures
        0 <= timestamp.nanos < 1_000_000_000,
        is_clock_time(timestamp),
{
    let elapsed = reading();
    let (secs, nanos): (u64, u32) = match elapsed {
        Ok(duration) => (duration.as_secs(), duration.subsec_nanos()),
        Err(_) => (0, 0),
    };
    assert(reads_secs(elapsed, secs) && reads_nanos(elapsed, nanos));
    timestamp_of(secs, nanos)
}

/// The current time of day in whole seconds since the epoch.
pub fn unix_secs() -> (secs: u64)
    ensures
        is_clock_secs(secs),
{
    let elapsed = reading();
    match elapsed {
        Ok(duration) => duration.as_secs(),
        Err(_) => 0,
    }
}

/// A timestamp holds the seconds and the nanoseconds that it was made of.
pub proof fn law_timestamp_holds_its_parts(secs: u64, nanos: u32, timestamp: Timestamp)
    requires
        call_ensures(timestamp_of, (secs, nanos), timestamp),
        secs <= i64::MAX,
        nanos < 1_000_000_000,
    ensures
        timestamp.seconds == secs,
        timestamp.nanos == nanos,
{
}

} // verus!
