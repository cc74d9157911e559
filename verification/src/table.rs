//! The worker's table of rows as a sequence, and what each event does to it.

use vstd::prelude::*;
use crate::clock::Timestamp;
use crate::entry::{BarEntryKind, Row};
use crate::event::{BarEvent, UpdateEvent};
use crate::painter::{cursor_down, cursor_up, erase_last_line, placeholder_text, row_text, rows_text};

verus! {

/// Whether some row belongs to the indicator `id`.
pub open spec fn tracks(rows: Seq<Row>, id: u32) -> bool {
    exists|i: int| 0 <= i < rows.len() && (#[trigger] rows[i]).id == id
}

/// The row of the indicator `id`, counted from the top.
pub open spec fn row_of(rows: Seq<Row>, id: u32) -> int
    recommends
        tracks(rows, id),
{
    choose|i: int| 0 <= i < rows.len() && (#[trigger] rows[i]).id == id
}

/// The identifiers of all rows.
pub open spec fn tracked_ids(rows: Seq<Row>) -> Set<u32> {
    Set::new(|id: u32| tracks(rows, id))
}

/// No two rows belong to the same indicator.
pub open spec fn distinct_ids(rows: Seq<Row>) -> bool {
    forall|i: int, j: int|
        0 <= i < j < rows.len() ==> (#[trigger] rows[i]).id != (#[trigger] rows[j]).id
}

/// Every bar is filled to at most 1000 per mille and every spinner stands
/// at one of its frames.
pub open spec fn in_range(rows: Seq<Row>) -> bool {
    forall|i: int| 0 <= i < rows.len() ==> (#[trigger] rows[i]).kind.in_range()
}

/// The table after an indicator was created: its row is added at the bottom.
pub open spec fn created(
    rows: Seq<Row>,
    id: u32,
    name: Seq<char>,
    time: Timestamp,
    progress: bool,
) -> Seq<Row> {
    rows.push(Row { id, name, time, kind: BarEntryKind::initial(progress) })
}

/// The table after the indicator `id` was torn down: its row is gone and
/// the rows below it have moved up by one. Unchanged where `id` has no row.
pub open spec fn retired(rows: Seq<Row>, id: u32) -> Seq<Row> {
    if tracks(rows, id) {
        rows.remove(row_of(rows, id))
    } else {
        rows
    }
}

/// The table after a progress report: the bar of that indicator takes the
/// new value. Unchanged where the indicator has no row or shows a spinner.
pub open spec fn reported(rows: Seq<Row>, update: UpdateEvent) -> Seq<Row> {
    if tracks(rows, update.id@) {
        let at = row_of(rows, update.id@);
        rows.update(
            at,
            rows[at].with_kind(rows[at].kind.reported(update.permille, update.decrement)),
        )
    } else {
        rows
    }
}

/// The table one frame later: every spinner has moved on.
pub open spec fn animated(rows: Seq<Row>) -> Seq<Row> {
    Seq::new(rows.len(), |i: int| rows[i].with_kind(rows[i].kind.animated()))
}

/// The table after one lifecycle event.
pub open spec fn after_bar_event(rows: Seq<Row>, event: BarEvent) -> Seq<Row> {
    match event {
        BarEvent::New { id, name, time, progress } => created(rows, id@, name@, time, progress),
        BarEvent::Close { id, time, mark } => retired(rows, id@),
        BarEvent::Check => rows,
    }
}

/// The table after a run of lifecycle events, oldest first.
pub open spec fn after_bar_events(rows: Seq<Row>, history: Seq<BarEvent>) -> Seq<Row>
    decreases history.len(),
{
    if history.len() == 0 {
        rows
    } else {
        after_bar_event(after_bar_events(rows, history.drop_last()), history.last())
    }
}

/// The indicators that a run of lifecycle events leaves alive: those
/// created and not torn down since.
pub open spec fn outstanding(history: Seq<BarEvent>) -> Set<u32>
    decreases history.len(),
{
    if history.len() == 0 {
        Set::empty()
    } else {
        let before = outstanding(history.drop_last());
        match history.last() {
            BarEvent::New { id, name, time, progress } => before.insert(id@),
            BarEvent::Close { id, time, mark } => before.remove(id@),
            BarEvent::Check => before,
        }
    }
}

/// A run of lifecycle events in which no indicator is created while an
/// indicator with the same identifier is alive.
pub open spec fn never_reuses_live_id(history: Seq<BarEvent>) -> bool
    decreases history.len(),
{
    history.len() == 0 || {
        &&& never_reuses_live_id(history.drop_last())
        &&& history.last() matches BarEvent::New { id, name, time, progress } ==> !outstanding(
            history.drop_last(),
        ).contains(id@)
    }
}

/// The table after a run of progress reports, oldest first.
pub open spec fn after_updates(rows: Seq<Row>, updates: Seq<UpdateEvent>) -> Seq<Row>
    decreases updates.len(),
{
    if updates.len() == 0 {
        rows
    } else {
        reported(after_updates(rows, updates.drop_last()), updates.last())
    }
}

/// What is printed when an indicator is torn down. Nothing where it has no
/// row. Where the row stays, the cursor moves to the top of the block, the
/// row is painted there as complete at `time`, and the cursor returns
/// below the rows that remain. Where it does not, the last line is erased.
pub open spec fn retire_text(rows: Seq<Row>, id: u32, time: Timestamp, mark: bool) -> Seq<char> {
    if !tracks(rows, id) {
        Seq::empty()
    } else if mark {
        let at = row_of(rows, id);
        let left = (rows.len() - 1) as nat;
        cursor_up(left + 1) + row_text(rows[at].with_kind(rows[at].kind.completed()), time) + (
        if left > 0 {
            cursor_down(left)
        } else {
            Seq::empty()
        })
    } else {
        erase_last_line()
    }
}

/// What is printed for one lifecycle event.
pub open spec fn bar_event_text(rows: Seq<Row>, event: BarEvent) -> Seq<char> {
    match event {
        BarEvent::New { id, name, time, progress } => placeholder_text(name@, progress),
        BarEvent::Close { id, time, mark } => retire_text(rows, id@, time, mark),
        BarEvent::Check => Seq::empty(),
    }
}

/// What is printed for a frame over the rows as they stand after the
/// spinners have moved: the cursor goes to the top of the block, then every
/// row is painted top to bottom. Nothing where there is no row.
pub open spec fn frame_text(rows: Seq<Row>, now: Timestamp) -> Seq<char> {
    if rows.len() > 0 {
        cursor_up(rows.len()) + rows_text(rows, 0, now)
    } else {
        Seq::empty()
    }
}

/// With distinct identifiers, the row of an indicator is the one row that
/// carries its identifier.
pub proof fn lemma_row_of_unique(rows: Seq<Row>, at: int)
    requires
        distinct_ids(rows),
        0 <= at < rows.len(),
    ensures
        tracks(rows, rows[at].id),
        row_of(rows, rows[at].id) == at,
{
}

/// Creating an indicator that has no row keeps identifiers distinct and
/// rows in range, and adds its identifier to those tracked.
pub proof fn lemma_created(rows: Seq<Row>, id: u32, name: Seq<char>, time: Timestamp, progress: bool)
    requires
        distinct_ids(rows),
        !tracks(rows, id),
    ensures
        distinct_ids(created(rows, id, name, time, progress)),
        in_range(rows) ==> in_range(created(rows, id, name, time, progress)),
        tracked_ids(created(rows, id, name, time, progress)) == tracked_ids(rows).insert(id),
{
    let after = created(rows, id, name, time, progress);
    assert forall|other: u32| tracks(after, other) <==> (tracks(rows, other) || other == id) by {
        if tracks(rows, other) {
            let i = row_of(rows, other);
            assert(after[i].id == other);
        }
        if other == id {
            assert(after[rows.len() as int].id == id);
        }
    }
}

/// Tearing an indicator down keeps identifiers distinct and rows in
/// range, and takes its identifier from those tracked.
pub proof fn lemma_retired(rows: Seq<Row>, id: u32)
    requires
        distinct_ids(rows),
    ensures
        distinct_ids(retired(rows, id)),
        in_range(rows) ==> in_range(retired(rows, id)),
        tracked_ids(retired(rows, id)) == tracked_ids(rows).remove(id),
        !tracks(retired(rows, id), id),
{
    let after = retired(rows, id);
    if tracks(rows, id) {
        let at = row_of(rows, id);
        assert forall|other: u32| tracks(after, other) <==> (tracks(rows, other) && other
            != id) by {
            if tracks(rows, other) && other != id {
                let i = row_of(rows, other);
                let to_i = if i < at { i } else { i - 1 };
                assert(after[to_i].id == other);
            }
        }
    }
}

/// After any run of creations, teardowns and liveness checks in which no
/// identifier is reused while its indicator is alive, the worker tracks
/// exactly the indicators that were created and not torn down since, each
/// in one row.
pub proof fn lemma_tracked_are_outstanding(history: Seq<BarEvent>)
    requires
        never_reuses_live_id(history),
    ensures
        tracked_ids(after_bar_events(Seq::empty(), history)) == outstanding(history),
        distinct_ids(after_bar_events(Seq::empty(), history)),
        in_range(after_bar_events(Seq::empty(), history)),
    decreases history.len(),
{
    if history.len() > 0 {
        let earlier = history.drop_last();
        lemma_tracked_are_outstanding(earlier);
        let rows = after_bar_events(Seq::empty(), earlier);
        match history.last() {
            BarEvent::New { id, name, time, progress } => {
                lemma_created(rows, id@, name@, time, progress);
            },
            BarEvent::Close { id, time, mark } => {
                lemma_retired(rows, id@);
            },
            BarEvent::Check => {},
        }
    }
}

/// A progress report keeps the rows where they are: same length, same
/// identifiers, and every row but the reported one untouched.
pub proof fn lemma_reported(rows: Seq<Row>, update: UpdateEvent)
    requires
        distinct_ids(rows),
    ensures
        reported(rows, update).len() == rows.len(),
        distinct_ids(reported(rows, update)),
        in_range(rows) ==> in_range(reported(rows, update)),
        tracked_ids(reported(rows, update)) == tracked_ids(rows),
        forall|i: int|
            0 <= i < rows.len() ==> {
                &&& (#[trigger] reported(rows, update)[i]).id == rows[i].id
                &&& reported(rows, update)[i].name == rows[i].name
                &&& reported(rows, update)[i].time == rows[i].time
                &&& reported(rows, update)[i].kind == (if rows[i].id == update.id@ {
                    rows[i].kind.reported(update.permille, update.decrement)
                } else {
                    rows[i].kind
                })
            },
{
    let after = reported(rows, update);
    if tracks(rows, update.id@) {
        let at = row_of(rows, update.id@);
        lemma_row_of_unique(rows, at);
        assert forall|i: int| 0 <= i < rows.len() implies {
            &&& (#[trigger] after[i]).id == rows[i].id
            &&& after[i].kind == (if rows[i].id == update.id@ {
                rows[i].kind.reported(update.permille, update.decrement)
            } else {
                rows[i].kind
            })
        } by {
            if i != at && rows[i].id == update.id@ {
                lemma_row_of_unique(rows, i);
            }
        }
    }
    assert forall|other: u32| tracks(after, other) <==> tracks(rows, other) by {
        if tracks(rows, other) {
            let i = row_of(rows, other);
            assert(after[i].id == other);
        }
    }
}

/// The value that the last report for the indicator `id` carried, or
/// `shown` where the run holds no report for it.
pub open spec fn last_report(updates: Seq<UpdateEvent>, id: u32, shown: u16) -> u16
    decreases updates.len(),
{
    if updates.len() == 0 {
        shown
    } else if updates.last().id@ == id {
        updates.last().permille
    } else {
        last_report(updates.drop_last(), id, shown)
    }
}

/// A run of reports in which those for the indicator `id` are ordinary
/// reports of a producer that only advances: none allows a decrease, none
/// exceeds 1000, and none is below the one before it, nor the first below
/// `shown`.
pub open spec fn only_advances(updates: Seq<UpdateEvent>, id: u32, shown: u16) -> bool
    decreases updates.len(),
{
    updates.len() == 0 || {
        &&& only_advances(updates.drop_last(), id, shown)
        &&& updates.last().id@ == id ==> {
            &&& !updates.last().decrement
            &&& last_report(updates.drop_last(), id, shown) <= updates.last().permille <= 1000
        }
    }
}

/// Whatever reports were lost on the way, the bar of a producer that only
/// advances shows, once the reports that arrived are taken in, the value
/// of the last one that arrived; and it stays where it was if none did.
pub proof fn lemma_display_converges(rows: Seq<Row>, updates: Seq<UpdateEvent>, at: int, shown: u16)
    requires
        distinct_ids(rows),
        0 <= at < rows.len(),
        rows[at].kind == BarEntryKind::Progress(shown),
        only_advances(updates, rows[at].id, shown),
    ensures
        after_updates(rows, updates).len() == rows.len(),
        distinct_ids(after_updates(rows, updates)),
        after_updates(rows, updates)[at].id == rows[at].id,
        after_updates(rows, updates)[at].kind == BarEntryKind::Progress(
            last_report(updates, rows[at].id, shown),
        ),
    decreases updates.len(),
{
    if updates.len() > 0 {
        let earlier = updates.drop_last();
        lemma_display_converges(rows, earlier, at, shown);
        lemma_reported(after_updates(rows, earlier), updates.last());
    }
}

/// No run of reports, whatever it holds, leads a row out of range or lets
/// a row appear or vanish.
pub proof fn lemma_updates_stay_in_range(rows: Seq<Row>, updates: Seq<UpdateEvent>)
    requires
        distinct_ids(rows),
        in_range(rows),
    ensures
        distinct_ids(after_updates(rows, updates)),
        in_range(after_updates(rows, updates)),
        tracked_ids(after_updates(rows, updates)) == tracked_ids(rows),
        after_updates(rows, updates).len() == rows.len(),
    decreases updates.len(),
{
    if updates.len() > 0 {
        let earlier = updates.drop_last();
        lemma_updates_stay_in_range(rows, earlier);
        lemma_reported(after_updates(rows, earlier), updates.last());
    }
}

/// An ordinary report never moves a bar backward.
pub proof fn lemma_report_never_backward(kind: BarEntryKind, permille: u16)
    requires
        kind.in_range(),
    ensures
        kind matches BarEntryKind::Progress(shown) ==> kind.reported(permille, false)
            matches BarEntryKind::Progress(next) && shown <= next <= 1000,
        kind is Spinner ==> kind.reported(permille, false) == kind,
{
}

} // verus!
