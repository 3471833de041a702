//! Instants and the wall clock.

use vstd::prelude::*;

verus! {

/// A UTC instant: whole seconds since 1970-01-01T00:00:00Z, not counting
/// leap seconds, and the nanoseconds past that second.
#[derive(Debug, Clone, Copy, PartialEq, Eq)]
pub struct Timestamp {
    pub secs: i64,
    pub nanos: u32,
}

/// Largest distance from the epoch, in seconds, of an instant that the clock
/// can report.
pub const CLOCK_SPAN: i64 = 0x1_0000_0000_0000;

/// What holds of every reading of the clock.
pub open spec fn clock_reading(t: Timestamp) -> bool {
    -CLOCK_SPAN <= t.secs <= CLOCK_SPAN && t.nanos < 1_000_000_000
}

/// Reads the wall clock through `chrono::Utc::now`.
///
/// Trusted: the reading lies within the range of dates that `chrono` can
/// represent, which is far inside `CLOCK_SPAN` on either side of the epoch,
/// and its sub-second part is below one second. `chrono` panics where the
/// system clock stands before the epoch.
#[verifier::external_body]
pub(crate) fn now() -> (t: Timestamp)
    ensures
        clock_reading(t),
{
    let t = chrono::Utc::now();
    Timestamp { secs: t.timestamp(), nanos: t.timestamp_subsec_nanos() }
}

} // verus!
