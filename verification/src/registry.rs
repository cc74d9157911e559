//! The rules of the registry: how a caller makes sure that a worker runs,
//! and what becomes of an event that a handle sends.
//!
//! The registry slot is either empty or holds the sending ends of the two
//! channels of a running worker. Only the worker empties it, just before
//! it ends, so a caller may find the slot populated and the worker gone.

use vstd::prelude::*;

verus! {

/// What a caller finds in the registry slot.
#[derive(Debug, Clone, Copy, PartialEq, Eq, Structural)]
pub enum Slot {
    /// No worker.
    Empty,
    /// The channels of a worker.
    Populated,
}

/// The answer of a channel to an attempt to send without waiting.
#[derive(Debug, Clone, Copy, PartialEq, Eq, Structural)]
pub enum TrySend {
    /// The event is in the channel.
    Accepted,
    /// The channel holds as many events as it can.
    Full,
    /// The receiving end is gone.
    Disconnected,
}

/// What a caller has just learned while making sure that a worker runs.
#[derive(Debug, Clone, Copy, PartialEq, Eq, Structural)]
pub enum Observation {
    /// The slot as read under shared access.
    Shared(Slot),
    /// The slot as read again under exclusive access.
    Exclusive(Slot),
    /// The answer to a liveness check sent without waiting.
    Probed(TrySend),
}

/// What the caller does next.
#[derive(Debug, Clone, Copy, PartialEq, Eq, Structural)]
pub enum Step {
    /// Send a liveness check on the lifecycle channel, without waiting.
    Probe,
    /// Give up shared access and start over by reading the slot.
    Retry,
    /// Give up shared access, take exclusive access and read the slot again.
    Upgrade,
    /// Create both channels, store their sending ends in the slot and start
    /// a worker on their receiving ends; then a worker runs.
    Spawn,
    /// A worker runs.
    Done,
}

/// What became of an event that a handle sent.
#[derive(Debug, Clone, Copy, PartialEq, Eq, Structural)]
pub enum Delivery {
    /// The worker will see it.
    Sent,
    /// The channel was full and the event is lost, which is no error.
    Dropped,
    /// No worker is reachable: the caller has broken the contract, and
    /// the process cannot go on.
    NotRunning,
}

/// The step that follows an observation. A populated slot is probed, and
/// the worker is alive if it takes the check; if it does not, it may have
/// ended since the slot was read, so the caller starts over instead of
/// taking the slot for empty. An empty slot is read again under exclusive
/// access, and only if it is still empty is a worker started.
pub open spec fn next_step(seen: Observation) -> Step {
    match seen {
        Observation::Shared(Slot::Populated) => Step::Probe,
        Observation::Shared(Slot::Empty) => Step::Upgrade,
        Observation::Exclusive(Slot::Empty) => Step::Spawn,
        Observation::Exclusive(Slot::Populated) => Step::Done,
        Observation::Probed(TrySend::Accepted) => Step::Done,
        Observation::Probed(TrySend::Full) => Step::Retry,
        Observation::Probed(TrySend::Disconnected) => Step::Retry,
    }
}

/// What became of a lifecycle event, sent with waiting: `link` is `None`
/// where the slot was empty and says otherwise whether the channel took it.
pub open spec fn bar_event_delivery(link: Option<bool>) -> Delivery {
    if link == Some(true) {
        Delivery::Sent
    } else {
        Delivery::NotRunning
    }
}

/// What became of a progress report, sent without waiting: `link` is
/// `None` where the slot was empty and holds otherwise the channel's answer.
pub open spec fn update_event_delivery(link: Option<TrySend>) -> Delivery {
    match link {
        Some(TrySend::Accepted) => Delivery::Sent,
        Some(TrySend::Full) => Delivery::Dropped,
        Some(TrySend::Disconnected) => Delivery::NotRunning,
        None => Delivery::NotRunning,
    }
}

/// One step of making sure that a worker runs: from what the caller has
/// just seen to what it does next. The caller starts by reading the slot
/// under shared access and goes on until the step is `Spawn` or `Done`.
pub fn load_bars(seen: Observation) -> (step: Step)
    ensures
        step == next_step(seen),
        step == Step::Spawn <==> seen == Observation::Exclusive(Slot::Empty),
{
    match seen {
        Observation::Shared(slot) => match slot {
            Slot::Populated => Step::Probe,
            Slot::Empty => Step::Upgrade,
        },
        Observation::Exclusive(slot) => match slot {
            Slot::Empty => Step::Spawn,
            Slot::Populated => Step::Done,
        },
        Observation::Probed(answer) => match answer {
            TrySend::Accepted => Step::Done,
            TrySend::Full => Step::Retry,
            TrySend::Disconnected => Step::Retry,
        },
    }
}

/// Judges the sending of a lifecycle event. Such an event must arrive: it
/// is sent with waiting, and an empty slot or a closed channel means that
/// no worker is reachable.
pub fn send_bar_event(link: Option<bool>) -> (delivery: Delivery)
    ensures
        delivery == bar_event_delivery(link),
        delivery != Delivery::Dropped,
{
    match link {
        Some(taken) => if taken {
            Delivery::Sent
        } else {
            Delivery::NotRunning
        },
        None => Delivery::NotRunning,
    }
}

/// Judges the sending of a progress report. A full channel loses the
/// report without error, so that a producer never waits for the display;
/// an empty slot or a closed channel means that no worker is reachable.
pub fn send_update_event(link: Option<TrySend>) -> (delivery: Delivery)
    ensures
        delivery == update_event_delivery(link),
        delivery == Delivery::Dropped <==> link == Some(TrySend::Full),
{
    match link {
        Some(answer) => match answer {
            TrySend::Accepted => Delivery::Sent,
            TrySend::Full => Delivery::Dropped,
            TrySend::Disconnected => Delivery::NotRunning,
        },
        None => Delivery::NotRunning,
    }
}

/// The registry as a whole: what the slot holds, and how many workers
/// there are that have not yet cleared it.
pub struct Registry {
    pub slot: Slot,
    pub workers: nat,
}

/// What can happen to the registry.
pub enum Move {
    /// A caller reads the slot under shared access or probes the channel.
    Look,
    /// A caller holds exclusive access, reads the slot again and does
    /// what `load_bars` tells it.
    Ensure,
    /// A worker, having stopped, clears the slot under exclusive access.
    Clear,
}

/// The slot is populated exactly while one worker is there, and there is
/// never more than one.
pub open spec fn at_most_one_worker(registry: Registry) -> bool {
    &&& registry.workers <= 1
    &&& registry.slot == Slot::Populated <==> registry.workers == 1
}

/// The registry after one move. Exclusive access makes a caller's second
/// reading and its spawning one step, and a worker's clearing another.
pub open spec fn after_move(registry: Registry, step: Move) -> Registry {
    match step {
        Move::Look => registry,
        Move::Ensure => if next_step(Observation::Exclusive(registry.slot)) == Step::Spawn {
            Registry { slot: Slot::Populated, workers: registry.workers + 1 }
        } else {
            registry
        },
        Move::Clear => if registry.workers >= 1 {
            Registry { slot: Slot::Empty, workers: (registry.workers - 1) as nat }
        } else {
            registry
        },
    }
}

/// The registry after a run of moves, oldest first.
pub open spec fn after_moves(registry: Registry, moves: Seq<Move>) -> Registry
    decreases moves.len(),
{
    if moves.len() == 0 {
        registry
    } else {
        after_move(after_moves(registry, moves.drop_last()), moves.last())
    }
}

/// However callers and workers take turns, no second worker is started
/// while one is there; and once a worker has cleared the slot, the next
/// caller that makes sure of a worker starts a fresh one.
pub proof fn lemma_at_most_one_worker(moves: Seq<Move>)
    ensures
        at_most_one_worker(after_moves(Registry { slot: Slot::Empty, workers: 0 }, moves)),
        after_moves(Registry { slot: Slot::Empty, workers: 0 }, moves).workers == 0
            ==> after_move(
            after_moves(Registry { slot: Slot::Empty, workers: 0 }, moves),
            Move::Ensure,
        ).workers == 1,
    decreases moves.len(),
{
    if moves.len() > 0 {
        lemma_at_most_one_worker(moves.drop_last());
    }
}

} // verus!
