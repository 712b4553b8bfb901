//! The wall clock, read as seconds or milliseconds since the Unix epoch.
use vstd::prelude::*;
use core::time::Duration;
use std::time::SystemTime;

verus! {

/// `std::time::SystemTime`, carried between the clock wrappers.
#[verifier::external_type_specification]
#[verifier::external_body]
pub struct ExSystemTime(SystemTime);

/// `SystemTime::now`. Nothing is claimed: it is the clock.
#[verifier::external_body]
fn system_time_now() -> SystemTime {
    SystemTime::now()
}

/// `SystemTime::duration_since(UNIX_EPOCH)`, with its error (a time before
/// the epoch) read as `None`. Nothing is claimed of the duration.
#[verifier::external_body]
fn since_unix_epoch(t: &SystemTime) -> Option<Duration> {
    t.duration_since(SystemTime::UNIX_EPOCH).ok()
}

/// `Duration::as_secs`: the whole seconds. Nothing is claimed of it.
#[verifier::external_body]
fn duration_as_secs(d: &Duration) -> u64 {
    d.as_secs()
}

/// `Duration::subsec_millis`: the whole milliseconds past the whole
/// seconds, which its documentation puts below one thousand.
#[verifier::external_body]
fn duration_subsec_millis(d: &Duration) -> (r: u32)
    ensures
        r < 1000,
{
    d.subsec_millis()
}

/// `Duration::as_millis() as u64` for a duration of `secs` seconds and
/// `subsec_millis` milliseconds: the total milliseconds, cut to 64 bits.
pub open spec fn millis_spec(secs: u64, subsec_millis: u32) -> u64 {
    (secs as int * 1000 + subsec_millis as int) as u64
}

/// The milliseconds of a duration given by its whole seconds and its
/// milliseconds past them, cut to 64 bits.
pub fn millis_from_parts(secs: u64, subsec_millis: u32) -> (r: u64)
    ensures
        r == millis_spec(secs, subsec_millis),
{
    let total: u128 = (secs as u128) * 1000 + (subsec_millis as u128);
    total as u64
}

/// The milliseconds since the Unix epoch for a clock reading given by the
/// whole seconds and the milliseconds past them, or 0 when the clock is set
/// before the epoch (no reading).
pub fn millis_since_epoch(parts: Option<(u64, u32)>) -> (r: u64)
    requires
        parts matches Some((_, m)) ==> m < 1000,
    ensures
        r == match parts {
            Some((s, m)) => millis_spec(s, m),
            None => 0,
        },
{
    match parts {
        Some((secs, millis)) => millis_from_parts(secs, millis),
        None => 0,
    }
}

/// The whole seconds since the Unix epoch for a clock reading, or 0 when
/// the clock is set before the epoch (no reading).
pub fn secs_since_epoch(secs: Option<u64>) -> (r: u64)
    ensures
        r == match secs {
            Some(s) => s,
            None => 0,
        },
{
    match secs {
        Some(s) => s,
        None => 0,
    }
}

/// Milliseconds since the Unix epoch, or 0 when the clock is set before it.
pub fn monotonic_millis() -> u64 {
    let parts = match since_unix_epoch(&system_time_now()) {
        Some(d) => Some((duration_as_secs(&d), duration_subsec_millis(&d))),
        None => None,
    };
    millis_since_epoch(parts)
}

/// Seconds since the Unix epoch, or 0 when the clock is set before it.
pub fn unix_time_secs() -> u64 {
    let secs = match since_unix_epoch(&system_time_now()) {
        Some(d) => Some(duration_as_secs(&d)),
        None => None,
    };
    secs_since_epoch(secs)
}

} // verus!
