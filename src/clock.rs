//! Durations and wall-clock readings, seen as whole nanoseconds.
use std::time::Duration;
use std::time::SystemTime;
use vstd::prelude::*;

verus! {

/// Declares `std::time::SystemTime`, an opaque wall-clock reading, so that
/// it can be passed from `SystemTime::now` to `SystemTime::duration_since`.
#[verifier::external_type_specification]
#[verifier::external_body]
pub struct ExSystemTime(SystemTime);

/// The whole number of nanoseconds that a `Duration` holds.
pub uninterp spec fn duration_nanos(d: Duration) -> u128;

/// Relies on `Duration::as_nanos`: the total number of whole nanoseconds in `d`.
#[verifier::external_body]
pub(crate) fn nanos_of(d: Duration) -> (r: u128)
    ensures
        r == duration_nanos(d),
{
    d.as_nanos()
}

/// Relies on `SystemTime::now`: the current wall-clock reading, of which
/// nothing can be promised.
pub assume_specification[ SystemTime::now ]() -> SystemTime;

/// Relies on `SystemTime::duration_since(UNIX_EPOCH)`: the time elapsed since
/// the epoch, or `None` for a reading earlier than the epoch.
#[verifier::external_body]
pub(crate) fn since_epoch(t: SystemTime) -> (r: Option<Duration>) {
    t.duration_since(std::time::UNIX_EPOCH).ok()
}

pub const NANOS_PER_MILLI: u128 = 1_000_000;

/// Milliseconds since the epoch, truncated to `i64` as a signed timestamp
/// column stores it; zero when the clock reads before the epoch.
pub open spec fn epoch_millis_spec(since: Option<Duration>) -> i64 {
    match since {
        Some(d) => (duration_nanos(d) / NANOS_PER_MILLI) as i64,
        None => 0,
    }
}

/// Turns a reading of the time since the epoch into a millisecond timestamp.
pub fn epoch_millis(since: Option<Duration>) -> (r: i64)
    ensures
        r == epoch_millis_spec(since),
{
    match since {
        Some(d) => (nanos_of(d) / NANOS_PER_MILLI) as i64,
        None => 0,
    }
}

/// The current wall-clock time as milliseconds since the epoch.
pub fn now_ms() -> (r: i64)
    ensures
        exists|since: Option<Duration>| r == epoch_millis_spec(since),
{
    let since = since_epoch(SystemTime::now());
    epoch_millis(since)
}

} // verus!
