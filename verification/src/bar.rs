//! The handle that a producer holds for one indicator.

use vstd::prelude::*;
use crate::clock::Timestamp;
use crate::event::{BarEvent, UpdateEvent};
use crate::ident::{BarId, IdAllocator, nth_id};
use crate::permille::{into_permille, permille};
use crate::registry::{update_event_delivery, Delivery, TrySend};

verus! {

/// A handle: the indicator's identifier, how much has been done, how much
/// there is to do if that is known, and whether the row stays on screen
/// after teardown.
#[derive(Debug)]
pub struct Bar {
    id: BarId,
    current: u64,
    total: Option<u64>,
    finish: bool,
}

/// A handle as contracts speak of it.
pub struct BarState {
    pub id: u32,
    pub current: nat,
    pub total: Option<u64>,
    pub finish: bool,
}

impl View for Bar {
    type V = BarState;

    closed spec fn view(&self) -> BarState {
        BarState {
            id: self.id@,
            current: self.current as nat,
            total: self.total,
            finish: self.finish,
        }
    }
}

/// The handle's state after an advance by `n`: a handle with a total has
/// `n` more done, a spinner stays as it is.
pub open spec fn advanced(state: BarState, n: nat) -> BarState {
    BarState {
        id: state.id,
        current: if state.total is Some {
            state.current + n
        } else {
            state.current
        },
        total: state.total,
        finish: state.finish,
    }
}

/// Whether `update` is the report of a handle in state `state`: it names
/// the handle's indicator, carries the per mille of what is done out of
/// the total, and does not allow a decrease.
pub open spec fn reports(update: UpdateEvent, state: BarState) -> bool {
    &&& state.total is Some
    &&& update.id@ == state.id
    &&& update.permille == permille(state.current, state.total->0 as nat)
    &&& !update.decrement
}

/// A producer that floods the channel goes on: where its report finds the
/// channel full, the report is lost without error, nothing is waited for,
/// and the handle has still counted the advance.
pub proof fn lemma_flooded_producer_goes_on(state: BarState, n: nat)
    requires
        state.total is Some,
        n > 0,
        state.current + n <= u64::MAX,
    ensures
        advanced(state, n).current == state.current + n,
        update_event_delivery(Some(TrySend::Full)) == Delivery::Dropped,
        update_event_delivery(Some(TrySend::Full)) != Delivery::NotRunning,
{
}

impl Bar {
    /// Creates the handle of a new indicator and the event that announces
    /// it to the worker. The identifier is drawn from `ids`; nothing is
    /// done yet, and the row will stay on screen after teardown. An
    /// indicator without a total is a spinner.
    pub fn new(ids: &mut IdAllocator, name: String, total: Option<u64>, now: Timestamp) -> (made: (
        Bar,
        BarEvent,
    ))
        ensures
            made.0@ == (BarState {
                id: old(ids).upcoming(),
                current: 0,
                total,
                finish: true,
            }),
            final(ids).upcoming() == nth_id(old(ids).upcoming(), 1),
            made.1 matches BarEvent::New { id, name: shown, time, progress } && id@ == old(
                ids,
            ).upcoming() && shown@ == name@ && time == now && progress == (total is Some),
    {
        let id = BarId::new(ids);
        let event = BarEvent::New { id, name, time: now, progress: total.is_some() };
        (Bar { id, current: 0, total, finish: true }, event)
    }

    /// The indicator's identifier.
    pub fn id(&self) -> (id: BarId)
        ensures
            id@ == self@.id,
    {
        self.id
    }

    /// How much has been done.
    pub fn current(&self) -> (current: u64)
        ensures
            current == self@.current,
    {
        self.current
    }

    /// How much there is to do, if that is known.
    pub fn total(&self) -> (total: Option<u64>)
        ensures
            total == self@.total,
    {
        self.total
    }

    /// Whether the row stays on screen after teardown.
    pub fn finish(&self) -> (finish: bool)
        ensures
            finish == self@.finish,
    {
        self.finish
    }

    /// Whether the handle can advance by `n`: the count of what is done
    /// must stay within 64 bits.
    pub fn can_increment(&self, n: u64) -> (fits: bool)
        ensures
            fits == (self@.total is Some && n > 0 ==> self@.current + n <= u64::MAX),
    {
        match self.total {
            Some(_) => n == 0 || n <= u64::MAX - self.current,
            None => true,
        }
    }

    /// Advances by `n` and returns the report to send, if any. Advancing
    /// by nothing, and advancing a spinner, changes nothing and reports
    /// nothing. Otherwise `n` is added to what has been done, and the
    /// report carries the resulting per mille.
    pub fn increment(&mut self, n: u64) -> (report: Option<UpdateEvent>)
        requires
            old(self)@.total is Some && n > 0 ==> old(self)@.current + n <= u64::MAX,
        ensures
            final(self)@ == advanced(old(self)@, n as nat),
            old(self)@.total is None || n == 0 ==> report is None,
            old(self)@.total is Some && n > 0 ==> {
                &&& report is Some
                &&& reports(report->0, final(self)@)
                &&& report->0.permille <= 1000
            },
    {
        if n == 0 {
            return None;
        }
        match self.total {
            Some(total) => {
                self.current = self.current + n;
                Some(
                    UpdateEvent {
                        id: self.id,
                        permille: into_permille(self.current, total),
                        decrement: false,
                    },
                )
            },
            None => None,
        }
    }

    /// Sets whether the row stays on screen, shown as complete, after
    /// teardown, or is erased without a trace.
    pub fn finish_on_drop(self, v: bool) -> (bar: Bar)
        ensures
            bar@ == (BarState { id: self@.id, current: self@.current, total: self@.total, finish: v }),
    {
        let mut bar = self;
        bar.finish = v;
        bar
    }

    /// The event that tears the indicator down at `now`. The caller sends
    /// it once, when the handle ends, and waits for the worker's
    /// acknowledgement before it goes on.
    pub fn close(&self, now: Timestamp) -> (event: BarEvent)
        ensures
            event matches BarEvent::Close { id, time, mark } && id@ == self@.id && time == now
                && mark == self@.finish,
    {
        BarEvent::Close { id: self.id, time: now, mark: self.finish }
    }
}

} // verus!
