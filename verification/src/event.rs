//! What travels from the handles to the worker.

use vstd::prelude::*;
use crate::clock::Timestamp;
use crate::ident::BarId;

verus! {

/// Capacity of the lifecycle channel.
pub const BAR_EVENT_CAPACITY: usize = 16;

/// Capacity of the update channel.
pub const UPDATE_EVENT_CAPACITY: usize = 64;

/// A progress report: frequent, and lost without harm when the channel is full.
#[derive(Debug, Clone, Copy, PartialEq, Eq, Structural)]
pub struct UpdateEvent {
    /// The indicator reported on.
    pub id: BarId,
    /// Completion in per mille.
    pub permille: u16,
    /// Whether the displayed value may move backward to this one.
    pub decrement: bool,
}

/// A structural event: an indicator appears or leaves, or a caller checks
/// that the worker is alive.
#[derive(Debug, Clone, PartialEq, Eq)]
pub enum BarEvent {
    /// An indicator was created.
    New {
        id: BarId,
        name: String,
        time: Timestamp,
        /// Whether it has a total: a bar if so, a spinner if not.
        progress: bool,
    },
    /// An indicator was torn down.
    Close {
        id: BarId,
        time: Timestamp,
        /// Whether its row stays on screen, shown as complete.
        mark: bool,
    },
    /// A liveness check.
    Check,
}

} // verus!
