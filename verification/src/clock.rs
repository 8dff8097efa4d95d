//! Readings of the system clocks.
//!
//! Nothing is promised of what a clock returns: the functions that read one state
//! what holds for every reading, and the verified functions beside them take the
//! reading as an argument.

use std::time::{Duration, Instant, SystemTime};
use vstd::prelude::*;

verus! {

#[verifier::external_type_specification]
#[verifier::external_body]
pub struct ExInstant(std::time::Instant);

#[verifier::external_type_specification]
#[verifier::external_body]
pub struct ExSystemTime(std::time::SystemTime);

/// Calls `std::time::SystemTime::now`; nothing is claimed of the reading.
#[verifier::external_body]
fn system_now() -> (t: SystemTime) {
    SystemTime::now()
}

/// Calls `SystemTime::duration_since` with `UNIX_EPOCH`; a reading before the epoch
/// (the std error) comes back as `None`. Nothing else is claimed.
#[verifier::external_body]
fn since_unix_epoch(t: &SystemTime) -> (d: Option<Duration>) {
    t.duration_since(std::time::UNIX_EPOCH).ok()
}

/// Calls `Duration::as_secs`; the duration is opaque here, so nothing is claimed.
#[verifier::external_body]
fn duration_secs(d: &Duration) -> (s: u64) {
    d.as_secs()
}

/// Calls `Duration::as_nanos`, the total nanoseconds of the duration. Claimed: its
/// whole seconds fit in 64 bits, as `Duration::as_secs` returns them as a `u64`.
#[verifier::external_body]
fn duration_nanos(d: &Duration) -> (ns: u128)
    ensures
        ns / 1_000_000_000 <= u64::MAX,
{
    d.as_nanos()
}

/// Calls `Duration::as_millis`; the duration is opaque here, so nothing is claimed.
#[verifier::external_body]
fn duration_millis(d: &Duration) -> (ms: u128) {
    d.as_millis()
}

/// Calls `std::time::Instant::now`; nothing is claimed of the reading.
#[verifier::external_body]
pub(crate) fn instant_now() -> (t: Instant) {
    Instant::now()
}

/// Calls `Instant::elapsed`; nothing is claimed of the reading.
#[verifier::external_body]
fn instant_elapsed(start: &Instant) -> (d: Duration) {
    start.elapsed()
}

/// Seconds since the Unix epoch by the system clock; a clock set before the
/// epoch reads as 0.
pub fn unix_time_secs() -> (s: u64) {
    let now = system_now();
    match since_unix_epoch(&now) {
        Some(d) => duration_secs(&d),
        None => 0,
    }
}

/// Seconds and nanoseconds since the Unix epoch by the system clock, from one
/// reading: the seconds are the whole seconds of the nanoseconds; `None` for a
/// clock set before the epoch.
pub fn unix_time_now() -> (r: Option<(u64, u128)>)
    ensures
        match r {
            Some((secs, nanos)) => secs == nanos / 1_000_000_000,
            None => true,
        },
{
    let now = system_now();
    match since_unix_epoch(&now) {
        Some(d) => {
            let ns = duration_nanos(&d);
            Some(((ns / 1_000_000_000) as u64, ns))
        },
        None => None,
    }
}

/// Whole milliseconds elapsed since `start` on the monotonic clock.
pub fn elapsed_millis(start: &Instant) -> (ms: u128) {
    let d = instant_elapsed(start);
    duration_millis(&d)
}

} // verus!
