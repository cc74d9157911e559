//! The background worker: the one owner of the table of rows.
//!
//! The worker runs in ticks. In each tick it first counts down towards its
//! end if it is idle, then takes lifecycle events for half a period, then
//! drains the progress reports that are waiting, then repaints if a period
//! has passed. The caller receives, prints and acknowledges; every rule is
//! here.

use vstd::prelude::*;
use fxhash::FxHashMap;
use crate::clock::{elapsed, Timestamp, TIME_STEP};
use crate::entry::{BarEntry, BarEntryKind, Row, SPINNER_LEN};
use crate::event::{BarEvent, UpdateEvent};
use crate::ident::BarId;
use crate::index::{index_get, index_insert, index_new, index_remove};
use crate::painter::{
    placeholder_text,
    push_cursor_down,
    push_cursor_up,
    push_erase_last_line,
    push_placeholder,
    push_row,
    rows_text,
};
use crate::permille::FULL;
use crate::table::{
    after_bar_event,
    animated,
    bar_event_text,
    created,
    distinct_ids,
    frame_text,
    in_range,
    reported,
    retire_text,
    retired,
    row_of,
    tracks,
};

verus! {

/// The ticks that an idle worker still runs before it stops.
pub const GRACE_TICKS: u8 = 2;

/// The table of active indicators, the time of the last repaint and the
/// countdown of an idle worker.
pub struct Worker {
    order: Vec<BarEntry>,
    bars: FxHashMap<u32, usize>,
    last_frame: Timestamp,
    grace: Option<u8>,
}

/// What the caller does after a lifecycle event.
#[derive(Debug, Clone, PartialEq, Eq)]
pub struct Reaction {
    /// Text to write to the display.
    pub text: String,
    /// Whether to flush the display after writing.
    pub flush: bool,
    /// Whether to acknowledge the event to its sender.
    pub acknowledge: bool,
}

/// What a channel says when it has no event for the worker.
#[derive(Debug, Clone, Copy, PartialEq, Eq, Structural)]
pub enum Silence {
    /// Nothing arrived in time, or nothing was waiting.
    Quiet,
    /// Every sending end is gone.
    Disconnected,
}

/// How the worker goes on after a channel had no event for it.
#[derive(Debug, Clone, Copy, PartialEq, Eq, Structural)]
pub enum Course {
    /// On to the next part of the tick.
    Proceed,
    /// The process cannot go on.
    Abort,
}

/// The countdown after one lifecycle event: the teardown that empties the
/// table starts it, and a creation or a liveness check cancels it, so that
/// a worker counts down only while its table is empty.
pub open spec fn countdown_after(countdown: Option<u8>, rows: Seq<Row>, event: BarEvent) -> Option<
    u8,
> {
    match event {
        BarEvent::New { id, name, time, progress } => None,
        BarEvent::Close { id, time, mark } => if tracks(rows, id@) && rows.len() == 1 {
            Some(GRACE_TICKS)
        } else {
            countdown
        },
        BarEvent::Check => None,
    }
}

/// The countdown after the start of a tick.
pub open spec fn countdown_ticked(countdown: Option<u8>) -> Option<u8> {
    match countdown {
        None => None,
        Some(left) => if left <= 1 {
            Some(0u8)
        } else {
            Some((left - 1) as u8)
        },
    }
}

/// Whether a worker with this countdown has stopped.
pub open spec fn stopped(countdown: Option<u8>) -> bool {
    countdown == Some(0u8)
}

impl Worker {
    /// The rows, top to bottom, in the order in which they were created.
    pub closed spec fn rows(&self) -> Seq<Row> {
        Seq::new(self.order@.len(), |i: int| self.order@[i]@)
    }

    /// The ticks left to an idle worker, if it is counting.
    pub closed spec fn countdown(&self) -> Option<u8> {
        self.grace
    }

    /// When the rows were last repainted.
    pub closed spec fn last_frame(&self) -> Timestamp {
        self.last_frame
    }

    /// The map from identifier to row agrees with the sequence of rows:
    /// each row's identifier leads to that row, and nothing else is mapped.
    pub closed spec fn indexed(&self) -> bool {
        &&& forall|i: int|
            0 <= i < self.order@.len() ==> {
                &&& self.bars@.contains_key((#[trigger] self.order@[i]).id@)
                &&& self.bars@[self.order@[i].id@] == i
            }
        &&& forall|key: u32| #[trigger]
            self.bars@.contains_key(key) ==> {
                &&& 0 <= self.bars@[key] < self.order@.len()
                &&& self.order@[self.bars@[key] as int].id@ == key
            }
    }

    /// The worker's invariant: map and rows agree, no identifier has two
    /// rows, every row is in range, and a countdown runs only while the
    /// table is empty and never exceeds the grace.
    pub open spec fn wf(&self) -> bool {
        &&& self.indexed()
        &&& distinct_ids(self.rows())
        &&& in_range(self.rows())
        &&& self.countdown() matches Some(left) ==> left <= GRACE_TICKS
        &&& self.countdown() is Some ==> self.rows().len() == 0
    }

    /// A worker with no rows, which last repainted at `now`.
    pub fn new(now: Timestamp) -> (worker: Worker)
        ensures
            worker.wf(),
            worker.rows() == Seq::<Row>::empty(),
            worker.countdown() is None,
            worker.last_frame() == now,
    {
        let worker = Worker { order: Vec::new(), bars: index_new(), last_frame: now, grace: None };
        worker
    }

    /// The number of rows.
    pub fn len(&self) -> (count: usize)
        ensures
            count == self.rows().len(),
    {
        self.order.len()
    }

    /// The rows, top to bottom.
    pub fn entries(&self) -> (entries: &Vec<BarEntry>)
        ensures
            entries@.len() == self.rows().len(),
            forall|i: int| 0 <= i < entries@.len() ==> (#[trigger] entries@[i])@ == self.rows()[i],
    {
        &self.order
    }

    /// Whether the indicator `id` has a row.
    pub fn is_tracked(&self, id: BarId) -> (found: bool)
        requires
            self.wf(),
        ensures
            found == tracks(self.rows(), id@),
    {
        let hit = index_get(&self.bars, id.value());
        proof {
            if hit is Some {
                let at = self.bars@[id@] as int;
                assert(self.rows()[at].id == id@);
            }
        }
        hit.is_some()
    }

    /// Says how the worker goes on after a channel had no event for it. A
    /// quiet channel ends that part of the tick. A disconnected one means
    /// that the contract is broken: the sending ends live in the registry
    /// slot, which only the worker itself clears, and only when it ends; a
    /// worker that went on would leave indicators behind that nobody can
    /// tear down. So the process is aborted, whatever the table holds.
    pub fn on_silence(&self, silence: Silence) -> (course: Course)
        ensures
            course == (match silence {
                Silence::Quiet => Course::Proceed,
                Silence::Disconnected => Course::Abort,
            }),
    {
        match silence {
            Silence::Quiet => Course::Proceed,
            Silence::Disconnected => Course::Abort,
        }
    }

    /// Starts a tick: an idle worker counts down, and the result says
    /// whether it has reached its end and must stop. A worker stops only
    /// with an empty table.
    pub fn begin_tick(&mut self) -> (stop: bool)
        requires
            old(self).wf(),
        ensures
            final(self).wf(),
            final(self).rows() == old(self).rows(),
            final(self).last_frame() == old(self).last_frame(),
            final(self).countdown() == countdown_ticked(old(self).countdown()),
            stop == stopped(final(self).countdown()),
            stop ==> final(self).rows().len() == 0,
    {
        match self.grace {
            None => false,
            Some(left) => {
                if left <= 1 {
                    self.grace = Some(0);
                    true
                } else {
                    self.grace = Some(left - 1);
                    false
                }
            },
        }
    }

    /// Takes in a new indicator: its row is added at the bottom, and the
    /// result is the placeholder line to print for it. A countdown that
    /// was running is cancelled: the worker has a row to show again.
    pub fn create(&mut self, id: BarId, name: String, time: Timestamp, progress: bool) -> (text:
        String)
        requires
            old(self).wf(),
            !tracks(old(self).rows(), id@),
        ensures
            final(self).wf(),
            final(self).rows() == created(old(self).rows(), id@, name@, time, progress),
            final(self).countdown() is None,
            final(self).last_frame() == old(self).last_frame(),
            text@ == placeholder_text(name@, progress),
    {
        let order_id: usize = self.order.len();
        index_insert(&mut self.bars, id.value(), order_id);
        let mut text = String::new();
        push_placeholder(&mut text, name.as_str(), progress);
        let kind = if progress {
            BarEntryKind::Progress(0)
        } else {
            BarEntryKind::Spinner(0)
        };
        self.order.push(BarEntry { id, name, time, kind });
        self.grace = None;
        proof {
            assert forall|i: int| 0 <= i < self.order@.len() implies {
                &&& self.bars@.contains_key((#[trigger] self.order@[i]).id@)
                &&& self.bars@[self.order@[i].id@] == i
            } by {
                if i < order_id {
                    assert(old(self).rows()[i].id == self.order@[i].id@);
                }
            }
            assert forall|i: int| 0 <= i < self.rows().len() implies (
            #[trigger] self.rows()[i]).kind.in_range() by {
                if i < order_id {
                    assert(old(self).rows()[i] == self.rows()[i]);
                }
            }
        }
        text
    }

    /// Moves the recorded row of every indicator from row `from` on up by
    /// one, after the row above them has left the sequence.
    fn shift_rows_up(&mut self, from: usize)
        requires
            from <= old(self).order@.len(),
            forall|i: int, j: int|
                0 <= i < j < old(self).order@.len() ==> (#[trigger] old(self).order@[i]).id@ != (
                #[trigger] old(self).order@[j]).id@,
            forall|i: int|
                0 <= i < from ==> {
                    &&& old(self).bars@.contains_key((#[trigger] old(self).order@[i]).id@)
                    &&& old(self).bars@[old(self).order@[i].id@] == i
                },
            forall|i: int|
                from <= i < old(self).order@.len() ==> {
                    &&& old(self).bars@.contains_key((#[trigger] old(self).order@[i]).id@)
                    &&& old(self).bars@[old(self).order@[i].id@] == i + 1
                },
            forall|key: u32| #[trigger]
                old(self).bars@.contains_key(key) ==> exists|i: int|
                    0 <= i < old(self).order@.len() && (#[trigger] old(self).order@[i]).id@ == key,
        ensures
            final(self).indexed(),
            final(self).order@ == old(self).order@,
            final(self).grace == old(self).grace,
            final(self).last_frame == old(self).last_frame,
    {
        let mut at: usize = from;
        while at < self.order.len()
            invariant
                from <= at <= self.order@.len(),
                self.order@ == old(self).order@,
                self.grace == old(self).grace,
                self.last_frame == old(self).last_frame,
                forall|i: int, j: int|
                    0 <= i < j < self.order@.len() ==> (#[trigger] self.order@[i]).id@ != (
                    #[trigger] self.order@[j]).id@,
                forall|i: int|
                    0 <= i < at ==> {
                        &&& self.bars@.contains_key((#[trigger] self.order@[i]).id@)
                        &&& self.bars@[self.order@[i].id@] == i
                    },
                forall|i: int|
                    at <= i < self.order@.len() ==> {
                        &&& self.bars@.contains_key((#[trigger] self.order@[i]).id@)
                        &&& self.bars@[self.order@[i].id@] == i + 1
                    },
                forall|key: u32| #[trigger]
                    self.bars@.contains_key(key) ==> exists|i: int|
                        0 <= i < self.order@.len() && (#[trigger] self.order@[i]).id@ == key,
            decreases self.order@.len() - at,
        {
            let key: u32 = self.order[at].id.value();
            match index_get(&self.bars, key) {
                Some(row) => {
                    index_insert(&mut self.bars, key, row - 1);
                },
                None => {},
            }
            at = at + 1;
        }
        proof {
            assert forall|key: u32| #[trigger] self.bars@.contains_key(key) implies {
                &&& 0 <= self.bars@[key] < self.order@.len()
                &&& self.order@[self.bars@[key] as int].id@ == key
            } by {
                let i = choose|i: int|
                    0 <= i < self.order@.len() && (#[trigger] self.order@[i]).id@ == key;
                assert(self.bars@[self.order@[i].id@] == i);
            }
        }
    }

    /// Tears an indicator down: its row leaves the table, and the rows
    /// below move up. The reaction holds what to print: the row painted as
    /// complete where `mark` is set, the last line erased where it is not.
    /// The teardown that empties the table starts the countdown and asks
    /// for a flush. The event is acknowledged in every case, also where the
    /// indicator has no row.
    pub fn retire(&mut self, id: BarId, time: Timestamp, mark: bool) -> (reaction: Reaction)
        requires
            old(self).wf(),
        ensures
            final(self).wf(),
            final(self).rows() == retired(old(self).rows(), id@),
            !tracks(final(self).rows(), id@),
            final(self).last_frame() == old(self).last_frame(),
            final(self).countdown() == (if tracks(old(self).rows(), id@) && old(self).rows().len()
                == 1 {
                Some(GRACE_TICKS)
            } else {
                old(self).countdown()
            }),
            reaction.text@ == retire_text(old(self).rows(), id@, time, mark),
            reaction.flush == (tracks(old(self).rows(), id@) && old(self).rows().len() == 1),
            reaction.acknowledge,
    {
        let mut text = String::new();
        let mut flush = false;
        let ghost before = old(self).rows();
        let found = index_remove(&mut self.bars, id.value());
        match found {
            Some(row) => {
                proof {
                    crate::table::lemma_row_of_unique(before, row as int);
                }
                let mut bar = self.order.remove(row);
                proof {
                    assert forall|key: u32| #[trigger]
                        self.bars@.contains_key(key) implies exists|i: int|
                        0 <= i < self.order@.len() && (#[trigger] self.order@[i]).id@ == key by {
                        let was = old(self).bars@[key] as int;
                        let now_at = if was < row { was } else { was - 1 };
                        assert(self.order@[now_at] == old(self).order@[was]);
                    }
                }
                self.shift_rows_up(row);
                let left: usize = self.order.len();
                assert(left + 1 == old(self).order.len());
                if mark {
                    bar.kind = match bar.kind {
                        BarEntryKind::Progress(_) => BarEntryKind::Progress(FULL),
                        BarEntryKind::Spinner(_) => BarEntryKind::Spinner(0),
                    };
                    push_cursor_up(&mut text, left + 1);
                    push_row(&mut text, &bar, time);
                    if left > 0 {
                        push_cursor_down(&mut text, left);
                    }
                } else {
                    push_erase_last_line(&mut text);
                }
                if left == 0 {
                    flush = true;
                    self.grace = Some(GRACE_TICKS);
                }
                proof {
                    assert(bar@ == before[row as int].with_kind(
                        before[row as int].kind.completed(),
                    ) || !mark);
                    assert forall|i: int| 0 <= i < self.rows().len() implies (
                    #[trigger] self.rows()[i]).kind.in_range() by {
                        let from_i = if i < row { i } else { i + 1 };
                        assert(before[from_i].kind.in_range());
                    }
                }
            },
            None => {},
        }
        Reaction { text, flush, acknowledge: true }
    }

    /// Takes in one lifecycle event and says what the caller does for it.
    /// A creation adds a row and prints its placeholder, and a teardown
    /// removes one and is acknowledged. A liveness check cancels the
    /// countdown of an idle worker outright, rather than putting it off: the
    /// caller that sent it is about to create an indicator, and the worker
    /// must still run when that one arrives. The creation cancels it too,
    /// in case the last teardown came between the two.
    pub fn on_bar_event(&mut self, event: BarEvent) -> (reaction: Reaction)
        requires
            old(self).wf(),
            event matches BarEvent::New { id, name, time, progress } ==> !tracks(
                old(self).rows(),
                id@,
            ),
        ensures
            final(self).wf(),
            final(self).rows() == after_bar_event(old(self).rows(), event),
            final(self).countdown() == countdown_after(
                old(self).countdown(),
                old(self).rows(),
                event,
            ),
            final(self).last_frame() == old(self).last_frame(),
            reaction.text@ == bar_event_text(old(self).rows(), event),
            reaction.flush == (event matches BarEvent::Close { id, time, mark } && tracks(
                old(self).rows(),
                id@,
            ) && old(self).rows().len() == 1),
            reaction.acknowledge == (event is Close),
    {
        match event {
            BarEvent::New { id, name, time, progress } => {
                let text = self.create(id, name, time, progress);
                Reaction { text, flush: false, acknowledge: false }
            },
            BarEvent::Close { id, time, mark } => self.retire(id, time, mark),
            BarEvent::Check => {
                self.grace = None;
                Reaction { text: String::new(), flush: false, acknowledge: false }
            },
        }
    }

    /// Takes in one progress report. The bar of a tracked indicator moves
    /// to the reported value, capped at 1000 and, unless the report allows
    /// a decrease, never below what it shows. Reports for spinners and for
    /// indicators without a row change nothing.
    pub fn on_update_event(&mut self, update: UpdateEvent)
        requires
            old(self).wf(),
        ensures
            final(self).wf(),
            final(self).rows() == reported(old(self).rows(), update),
            final(self).countdown() == old(self).countdown(),
            final(self).last_frame() == old(self).last_frame(),
    {
        let ghost before = self.rows();
        match index_get(&self.bars, update.id.value()) {
            Some(row) => {
                proof {
                    crate::table::lemma_row_of_unique(before, row as int);
                }
                match self.order[row].kind {
                    BarEntryKind::Progress(shown) => {
                        let floor: u16 = if update.decrement {
                            0
                        } else {
                            shown
                        };
                        let value: u16 = if update.permille < floor {
                            floor
                        } else if update.permille > FULL {
                            FULL
                        } else {
                            update.permille
                        };
                        self.order[row].kind = BarEntryKind::Progress(value);
                    },
                    BarEntryKind::Spinner(_) => {},
                }
                proof {
                    assert forall|i: int| 0 <= i < self.rows().len() implies (
                    #[trigger] self.rows()[i]).kind.in_range() by {
                        assert(before[i].kind.in_range());
                    }
                }
            },
            None => {},
        }
    }

    /// Ends a tick at `now`. Once more than a period has passed since the
    /// last repaint, every spinner moves on by one frame and the result is
    /// the text that repaints all rows; before that, nothing changes and
    /// nothing is printed.
    pub fn on_frame(&mut self, now: Timestamp) -> (text: Option<String>)
        requires
            old(self).wf(),
        ensures
            final(self).wf(),
            final(self).countdown() == old(self).countdown(),
            elapsed(now, old(self).last_frame()) > TIME_STEP ==> {
                &&& final(self).rows() == animated(old(self).rows())
                &&& final(self).last_frame() == now
                &&& text matches Some(painted)
                &&& painted@ == frame_text(final(self).rows(), now)
            },
            elapsed(now, old(self).last_frame()) <= TIME_STEP ==> {
                &&& final(self).rows() == old(self).rows()
                &&& final(self).last_frame() == old(self).last_frame()
                &&& text is None
            },
    {
        if now.since(self.last_frame) <= TIME_STEP {
            return None;
        }
        self.last_frame = now;
        let mut painted = String::new();
        let count: usize = self.order.len();
        if count > 0 {
            push_cursor_up(&mut painted, count);
        }
        let ghost before = old(self).rows();
        let ghost after = animated(before);
        let ghost head = painted@;
        let mut at: usize = 0;
        while at < count
            invariant
                at <= count == self.order@.len(),
                before == old(self).rows(),
                after == animated(before),
                before.len() == count,
                in_range(before),
                self.bars@ == old(self).bars@,
                self.grace == old(self).grace,
                self.last_frame == now,
                forall|i: int|
                    0 <= i < count ==> (#[trigger] self.order@[i]).id@ == old(self).order@[i].id@,
                forall|i: int| 0 <= i < at ==> (#[trigger] self.order@[i])@ == after[i],
                forall|i: int| at <= i < count ==> (#[trigger] self.order@[i])@ == before[i],
                painted@ + rows_text(after, at as int, now) == head + rows_text(after, 0, now),
            decreases count - at,
        {
            match self.order[at].kind {
                BarEntryKind::Spinner(frame) => {
                    self.order[at].kind = BarEntryKind::Spinner((frame + 1) % SPINNER_LEN);
                },
                BarEntryKind::Progress(_) => {},
            }
            let ghost so_far = painted@;
            push_row(&mut painted, &self.order[at], now);
            proof {
                assert(painted@ + rows_text(after, at + 1, now) =~= so_far + rows_text(
                    after,
                    at as int,
                    now,
                ));
            }
            at = at + 1;
        }
        proof {
            assert forall|i: int| 0 <= i < self.order@.len() implies {
                &&& self.bars@.contains_key((#[trigger] self.order@[i]).id@)
                &&& self.bars@[self.order@[i].id@] == i
            } by {
                assert(old(self).order@[i].id@ == self.order@[i].id@);
            }
            assert forall|i: int| 0 <= i < self.rows().len() implies (
            #[trigger] self.rows()[i]).kind.in_range() by {}
        }
        Some(painted)
    }
}

/// Once the last indicator is torn down the table is empty, and the worker
/// stops at the start of the second tick after that, provided that no
/// liveness check arrives before: it runs one more tick, then ends.
pub proof fn lemma_idle_worker_stops(countdown: Option<u8>, rows: Seq<Row>, event: BarEvent)
    requires
        rows.len() == 1,
        event matches BarEvent::Close { id, time, mark } && tracks(rows, id@),
    ensures
        after_bar_event(rows, event).len() == 0,
        !stopped(countdown_after(countdown, rows, event)),
        !stopped(countdown_ticked(countdown_after(countdown, rows, event))),
        stopped(countdown_ticked(countdown_ticked(countdown_after(countdown, rows, event)))),
{
}

/// A worker counts down only while its table is empty, whatever lifecycle
/// event arrives: so it never stops with an indicator in its table.
pub proof fn lemma_counts_down_only_when_empty(
    countdown: Option<u8>,
    rows: Seq<Row>,
    event: BarEvent,
)
    requires
        countdown is Some ==> rows.len() == 0,
    ensures
        countdown_after(countdown, rows, event) is Some ==> after_bar_event(rows, event).len()
            == 0,
        stopped(countdown_ticked(countdown_after(countdown, rows, event))) ==> after_bar_event(
            rows,
            event,
        ).len() == 0,
{
}

/// A creation cancels the countdown: a worker whose last indicator was
/// torn down and which then takes in a new one does not stop, however many
/// ticks follow, until a teardown empties its table again.
pub proof fn lemma_creation_cancels_countdown(
    countdown: Option<u8>,
    rows: Seq<Row>,
    event: BarEvent,
    ticks: nat,
)
    requires
        event is New,
    ensures
        countdown_after(countdown, rows, event) is None,
        ticked(countdown_after(countdown, rows, event), ticks) is None,
        !stopped(ticked(countdown_after(countdown, rows, event), ticks)),
    decreases ticks,
{
    if ticks > 0 {
        lemma_creation_cancels_countdown(countdown, rows, event, (ticks - 1) as nat);
    }
}

/// A liveness check cancels the countdown outright: a worker that has
/// taken one does not stop, however many ticks follow, until a teardown
/// empties its table again.
pub proof fn lemma_check_cancels_countdown(countdown: Option<u8>, rows: Seq<Row>, ticks: nat)
    ensures
        countdown_after(countdown, rows, BarEvent::Check) is None,
        ticked(countdown_after(countdown, rows, BarEvent::Check), ticks) is None,
        !stopped(ticked(countdown_after(countdown, rows, BarEvent::Check), ticks)),
    decreases ticks,
{
    if ticks > 0 {
        lemma_check_cancels_countdown(countdown, rows, (ticks - 1) as nat);
    }
}

/// The countdown after `ticks` tick starts.
pub open spec fn ticked(countdown: Option<u8>, ticks: nat) -> Option<u8>
    decreases ticks,
{
    if ticks == 0 {
        countdown
    } else {
        countdown_ticked(ticked(countdown, (ticks - 1) as nat))
    }
}

} // verus!
