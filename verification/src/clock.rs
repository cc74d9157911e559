//! Points in time as plain numbers.

use vstd::prelude::*;

verus! {

/// Nanoseconds in one second.
pub const NANOS_PER_SEC: u64 = 1_000_000_000;

/// Nanoseconds in a tenth of a second.
pub const NANOS_PER_TENTH: u64 = 100_000_000;

/// The period of the display: rows are repainted once more than this has
/// passed since the last repaint.
pub const TIME_STEP: u64 = 100_000_000;

/// How long the worker waits for one lifecycle event: half the period.
pub const RECEIVE_TIMEOUT: u64 = 50_000_000;

/// A reading of a monotonic clock, in nanoseconds since an origin that the
/// caller fixes once.
#[derive(Debug, Clone, Copy, PartialEq, Eq, Structural)]
pub struct Timestamp {
    pub nanos: u64,
}

/// Time from `earlier` to `now` in nanoseconds, zero where `earlier` is the later one.
pub open spec fn elapsed(now: Timestamp, earlier: Timestamp) -> nat {
    if now.nanos >= earlier.nanos {
        (now.nanos - earlier.nanos) as nat
    } else {
        0
    }
}

impl Timestamp {
    /// Time from `earlier` to this reading, zero where `earlier` is the later one.
    pub fn since(&self, earlier: Timestamp) -> (nanos: u64)
        ensures
            nanos == elapsed(*self, earlier),
    {
        if self.nanos >= earlier.nanos {
            self.nanos - earlier.nanos
        } else {
            0
        }
    }
}

} // verus!
