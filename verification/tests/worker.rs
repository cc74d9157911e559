use omnitrace_task::clock::{Timestamp, RECEIVE_TIMEOUT, TIME_STEP};
use omnitrace_task::entry::{BarEntry, BarEntryKind};
use omnitrace_task::event::{BarEvent, UpdateEvent};
use omnitrace_task::ident::{BarId, IdAllocator};
use omnitrace_task::painter::print_bar;
use omnitrace_task::worker::{Course, Reaction, Silence, Worker, GRACE_TICKS};

fn at(nanos: u64) -> Timestamp {
    Timestamp { nanos }
}

fn ids(count: usize) -> Vec<BarId> {
    let mut source = IdAllocator::new();
    (0..count).map(|_| BarId::new(&mut source)).collect()
}

fn create(id: BarId, name: &str, time: u64, progress: bool) -> BarEvent {
    BarEvent::New { id, name: String::from(name), time: at(time), progress }
}

fn close(id: BarId, time: u64, mark: bool) -> BarEvent {
    BarEvent::Close { id, time: at(time), mark }
}

fn update(id: BarId, permille: u16) -> UpdateEvent {
    UpdateEvent { id, permille, decrement: false }
}

fn row(id: BarId, name: &str, time: u64, kind: BarEntryKind, now: u64) -> String {
    print_bar(&BarEntry { id, name: String::from(name), time: at(time), kind }, at(now))
}

fn alive(worker: &Worker, all: &[BarId]) -> Vec<u32> {
    all.iter().filter(|id| worker.is_tracked(**id)).map(|id| id.value()).collect()
}

#[test]
fn new_worker_is_empty() {
    let worker = Worker::new(at(0));
    assert_eq!(worker.len(), 0);
    assert!(!worker.is_tracked(ids(1)[0]));
}

#[test]
fn creation_prints_a_placeholder() {
    let id = ids(2);
    let mut worker = Worker::new(at(0));
    let reaction = worker.on_bar_event(create(id[0], "load", 10, true));
    assert_eq!(
        reaction,
        Reaction {
            text: format!("load\t   0.0% ▌{}▐ 0s\n", " ".repeat(25)),
            flush: false,
            acknowledge: false
        }
    );
    let reaction = worker.on_bar_event(create(id[1], "wait", 20, false));
    assert_eq!(
        reaction,
        Reaction { text: String::from("wait\t▌ ▐ 0s\n"), flush: false, acknowledge: false }
    );
    assert_eq!(worker.len(), 2);
    assert!(worker.is_tracked(id[0]));
    assert!(worker.is_tracked(id[1]));
}

#[test]
fn tracked_set_follows_creations_and_teardowns() {
    let id = ids(5);
    let mut worker = Worker::new(at(0));
    worker.on_bar_event(create(id[0], "a", 0, true));
    worker.on_bar_event(create(id[1], "b", 0, false));
    worker.on_bar_event(create(id[2], "c", 0, true));
    assert_eq!(alive(&worker, &id), vec![0, 1, 2]);
    worker.on_bar_event(close(id[1], 1, true));
    assert_eq!(alive(&worker, &id), vec![0, 2]);
    worker.on_bar_event(create(id[3], "d", 0, true));
    worker.on_bar_event(BarEvent::Check);
    worker.on_bar_event(close(id[0], 1, false));
    assert_eq!(alive(&worker, &id), vec![2, 3]);
    worker.on_bar_event(create(id[4], "e", 0, false));
    worker.on_bar_event(close(id[4], 1, false));
    worker.on_bar_event(close(id[2], 1, true));
    assert_eq!(alive(&worker, &id), vec![3]);
    worker.on_bar_event(close(id[3], 1, true));
    assert_eq!(alive(&worker, &id), Vec::<u32>::new());
    assert_eq!(worker.len(), 0);
}

#[test]
fn rows_below_a_retired_row_move_up() {
    let id = ids(4);
    let mut worker = Worker::new(at(0));
    worker.on_bar_event(create(id[0], "a", 0, true));
    worker.on_bar_event(create(id[1], "b", 0, true));
    worker.on_bar_event(create(id[2], "c", 0, true));
    worker.on_bar_event(create(id[3], "d", 0, true));
    worker.on_bar_event(close(id[1], 0, false));
    // the map still leads to the right rows: each update lands on its own bar
    worker.on_update_event(update(id[0], 100));
    worker.on_update_event(update(id[2], 200));
    worker.on_update_event(update(id[3], 300));
    let now = TIME_STEP + 1;
    let text = worker.on_frame(at(now)).unwrap();
    let expected = format!(
        "\x1b[3A{}{}{}",
        row(id[0], "a", 0, BarEntryKind::Progress(100), now),
        row(id[2], "c", 0, BarEntryKind::Progress(200), now),
        row(id[3], "d", 0, BarEntryKind::Progress(300), now)
    );
    assert_eq!(text, expected);
}

#[test]
fn teardown_with_mark_paints_the_row_as_complete() {
    let id = ids(3);
    let mut worker = Worker::new(at(0));
    worker.on_bar_event(create(id[0], "a", 0, true));
    worker.on_bar_event(create(id[1], "b", 0, false));
    worker.on_bar_event(create(id[2], "c", 0, true));
    worker.on_update_event(update(id[0], 420));
    let reaction = worker.on_bar_event(close(id[0], 3_000_000_000, true));
    assert_eq!(
        reaction.text,
        format!(
            "\x1b[3A{}\x1b[2B",
            row(id[0], "a", 0, BarEntryKind::Progress(1000), 3_000_000_000)
        )
    );
    assert!(reaction.text.contains("100.0%"));
    assert!(reaction.acknowledge);
    assert!(!reaction.flush);
    assert!(!worker.is_tracked(id[0]));
    // a spinner that stays is shown at its first frame
    worker.on_frame(at(TIME_STEP + 1));
    let reaction = worker.on_bar_event(close(id[1], 4_000_000_000, true));
    assert_eq!(
        reaction.text,
        format!("\x1b[2A{}\x1b[1B", row(id[1], "b", 0, BarEntryKind::Spinner(0), 4_000_000_000))
    );
    // the last row leaves no cursor move behind it
    let reaction = worker.on_bar_event(close(id[2], 5_000_000_000, true));
    assert_eq!(
        reaction.text,
        format!("\x1b[1A{}", row(id[2], "c", 0, BarEntryKind::Progress(1000), 5_000_000_000))
    );
    assert!(reaction.flush);
    assert_eq!(worker.len(), 0);
}

#[test]
fn teardown_without_mark_erases_the_row() {
    let id = ids(2);
    let mut worker = Worker::new(at(0));
    worker.on_bar_event(create(id[0], "a", 0, true));
    worker.on_bar_event(create(id[1], "b", 0, true));
    let reaction = worker.on_bar_event(close(id[0], 1, false));
    assert_eq!(
        reaction,
        Reaction { text: String::from("\x1b[A\x1b[K"), flush: false, acknowledge: true }
    );
    assert!(!worker.is_tracked(id[0]));
    assert_eq!(worker.len(), 1);
    let reaction = worker.on_bar_event(close(id[1], 1, false));
    assert_eq!(
        reaction,
        Reaction { text: String::from("\x1b[A\x1b[K"), flush: true, acknowledge: true }
    );
    assert_eq!(worker.len(), 0);
}

#[test]
fn teardown_of_an_unknown_indicator_is_still_acknowledged() {
    let id = ids(2);
    let mut worker = Worker::new(at(0));
    worker.on_bar_event(create(id[0], "a", 0, true));
    let reaction = worker.on_bar_event(close(id[1], 1, true));
    assert_eq!(reaction, Reaction { text: String::new(), flush: false, acknowledge: true });
    assert_eq!(worker.len(), 1);
    assert!(worker.is_tracked(id[0]));
}

#[test]
fn ordinary_updates_only_move_forward() {
    let id = ids(1);
    let mut worker = Worker::new(at(0));
    worker.on_bar_event(create(id[0], "a", 0, true));
    worker.on_update_event(update(id[0], 500));
    worker.on_update_event(update(id[0], 300));
    let now = TIME_STEP + 1;
    assert_eq!(
        worker.on_frame(at(now)).unwrap(),
        format!("\x1b[1A{}", row(id[0], "a", 0, BarEntryKind::Progress(500), now))
    );
    worker.on_update_event(UpdateEvent { id: id[0], permille: 300, decrement: true });
    let now = 2 * TIME_STEP + 2;
    assert_eq!(
        worker.on_frame(at(now)).unwrap(),
        format!("\x1b[1A{}", row(id[0], "a", 0, BarEntryKind::Progress(300), now))
    );
}

#[test]
fn updates_are_capped_at_one_thousand() {
    let id = ids(1);
    let mut worker = Worker::new(at(0));
    worker.on_bar_event(create(id[0], "a", 0, true));
    worker.on_update_event(update(id[0], 65535));
    let now = TIME_STEP + 1;
    assert_eq!(
        worker.on_frame(at(now)).unwrap(),
        format!("\x1b[1A{}", row(id[0], "a", 0, BarEntryKind::Progress(1000), now))
    );
    worker.on_update_event(UpdateEvent { id: id[0], permille: 2000, decrement: true });
    let now = 2 * TIME_STEP + 2;
    assert_eq!(
        worker.on_frame(at(now)).unwrap(),
        format!("\x1b[1A{}", row(id[0], "a", 0, BarEntryKind::Progress(1000), now))
    );
}

#[test]
fn updates_for_spinners_and_strangers_change_nothing() {
    let id = ids(2);
    let mut worker = Worker::new(at(0));
    worker.on_bar_event(create(id[0], "wait", 0, false));
    worker.on_update_event(update(id[0], 500));
    worker.on_update_event(update(id[1], 500));
    let now = TIME_STEP + 1;
    assert_eq!(
        worker.on_frame(at(now)).unwrap(),
        format!("\x1b[1A{}", row(id[0], "wait", 0, BarEntryKind::Spinner(1), now))
    );
    assert_eq!(worker.len(), 1);
}

#[test]
fn display_converges_to_the_last_update_that_arrived() {
    let id = ids(1);
    let mut worker = Worker::new(at(0));
    worker.on_bar_event(create(id[0], "a", 0, true));
    // of the reports 1, 2, ... 1000 only some arrive
    for permille in (1..=1000u16).filter(|p| p % 7 == 0 || *p == 998) {
        worker.on_update_event(update(id[0], permille));
    }
    let now = TIME_STEP + 1;
    assert_eq!(
        worker.on_frame(at(now)).unwrap(),
        format!("\x1b[1A{}", row(id[0], "a", 0, BarEntryKind::Progress(998), now))
    );
}

#[test]
fn no_repaint_before_a_period_has_passed() {
    let id = ids(1);
    let mut worker = Worker::new(at(1_000));
    worker.on_bar_event(create(id[0], "wait", 0, false));
    assert_eq!(worker.on_frame(at(1_000)), None);
    assert_eq!(worker.on_frame(at(1_000 + TIME_STEP)), None);
    assert_eq!(worker.on_frame(at(500)), None);
    let now = 1_001 + TIME_STEP;
    assert_eq!(
        worker.on_frame(at(now)).unwrap(),
        format!("\x1b[1A{}", row(id[0], "wait", 0, BarEntryKind::Spinner(1), now))
    );
    // the period is counted from the last repaint
    assert_eq!(worker.on_frame(at(now + TIME_STEP)), None);
    let later = now + TIME_STEP + 1;
    assert_eq!(
        worker.on_frame(at(later)).unwrap(),
        format!("\x1b[1A{}", row(id[0], "wait", 0, BarEntryKind::Spinner(2), later))
    );
}

#[test]
fn repaint_of_an_empty_table_prints_nothing() {
    let mut worker = Worker::new(at(0));
    assert_eq!(worker.on_frame(at(TIME_STEP + 1)), Some(String::new()));
}

#[test]
fn spinner_starts_over_after_sixteen_frames() {
    let id = ids(1);
    let mut worker = Worker::new(at(0));
    worker.on_bar_event(create(id[0], "wait", 0, false));
    let mut now = 0;
    for frame in 1..=40u8 {
        now += TIME_STEP + 1;
        assert_eq!(
            worker.on_frame(at(now)).unwrap(),
            format!("\x1b[1A{}", row(id[0], "wait", 0, BarEntryKind::Spinner(frame % 16), now))
        );
    }
}

#[test]
fn idle_worker_stops_after_the_grace_ticks() {
    let id = ids(1);
    let mut worker = Worker::new(at(0));
    assert!(!worker.begin_tick());
    worker.on_bar_event(create(id[0], "a", 0, true));
    assert!(!worker.begin_tick());
    assert!(!worker.begin_tick());
    worker.on_bar_event(close(id[0], 1, true));
    assert_eq!(GRACE_TICKS, 2);
    assert!(!worker.begin_tick());
    assert!(worker.begin_tick());
    assert!(worker.begin_tick());
}

#[test]
fn liveness_check_cancels_the_countdown() {
    let id = ids(2);
    let mut worker = Worker::new(at(0));
    worker.on_bar_event(create(id[0], "a", 0, true));
    worker.on_bar_event(close(id[0], 1, false));
    assert!(!worker.begin_tick());
    let reaction = worker.on_bar_event(BarEvent::Check);
    assert_eq!(reaction, Reaction { text: String::new(), flush: false, acknowledge: false });
    for _ in 0..10 {
        assert!(!worker.begin_tick());
    }
    worker.on_bar_event(create(id[1], "b", 0, true));
    worker.on_bar_event(close(id[1], 1, false));
    assert!(!worker.begin_tick());
    assert!(worker.begin_tick());
}

#[test]
fn teardown_of_an_unknown_indicator_starts_no_countdown() {
    let id = ids(1);
    let mut worker = Worker::new(at(0));
    worker.on_bar_event(close(id[0], 1, true));
    for _ in 0..5 {
        assert!(!worker.begin_tick());
    }
}

#[test]
fn receive_timeout_is_half_a_period() {
    assert_eq!(TIME_STEP, 100_000_000);
    assert_eq!(RECEIVE_TIMEOUT * 2, TIME_STEP);
}

#[test]
fn methods_agree_with_the_event_dispatch() {
    let id = ids(2);
    let mut by_event = Worker::new(at(0));
    let mut by_method = Worker::new(at(0));
    let printed = by_method.create(id[0], String::from("a"), at(7), true);
    assert_eq!(by_event.on_bar_event(create(id[0], "a", 7, true)).text, printed);
    let left = by_method.retire(id[0], at(9), true);
    assert_eq!(by_event.on_bar_event(close(id[0], 9, true)), left);
    let left = by_method.retire(id[1], at(9), true);
    assert_eq!(by_event.on_bar_event(close(id[1], 9, true)), left);
}

#[test]
fn disconnected_channel_aborts() {
    let id = ids(1);
    let mut worker = Worker::new(at(0));
    assert_eq!(worker.on_silence(Silence::Quiet), Course::Proceed);
    assert_eq!(worker.on_silence(Silence::Disconnected), Course::Abort);
    worker.on_bar_event(create(id[0], "a", 0, true));
    assert_eq!(worker.on_silence(Silence::Quiet), Course::Proceed);
    assert_eq!(worker.on_silence(Silence::Disconnected), Course::Abort);
}

#[test]
fn rows_stand_in_the_order_of_creation() {
    let id = ids(3);
    let mut worker = Worker::new(at(0));
    worker.on_bar_event(create(id[0], "a", 1, true));
    worker.on_bar_event(create(id[1], "b", 2, false));
    worker.on_bar_event(create(id[2], "c", 3, true));
    worker.on_update_event(update(id[2], 10));
    worker.on_bar_event(close(id[0], 4, true));
    assert_eq!(
        worker.entries(),
        &vec![
            BarEntry {
                id: id[1],
                name: String::from("b"),
                time: at(2),
                kind: BarEntryKind::Spinner(0)
            },
            BarEntry {
                id: id[2],
                name: String::from("c"),
                time: at(3),
                kind: BarEntryKind::Progress(10)
            },
        ]
    );
}

#[test]
fn creation_cancels_the_countdown() {
    let id = ids(3);
    let mut worker = Worker::new(at(0));
    worker.on_bar_event(create(id[0], "a", 0, true));
    // a liveness check, then the last teardown, then the creation that
    // the check announced
    worker.on_bar_event(BarEvent::Check);
    worker.on_bar_event(close(id[0], 1, true));
    worker.on_bar_event(create(id[1], "b", 2, true));
    for _ in 0..10 {
        assert!(!worker.begin_tick());
        assert_eq!(worker.len(), 1);
    }
    // also after one tick of the countdown has passed
    worker.on_bar_event(close(id[1], 3, false));
    assert!(!worker.begin_tick());
    worker.create(id[2], String::from("c"), at(4), false);
    for _ in 0..10 {
        assert!(!worker.begin_tick());
    }
    worker.on_bar_event(close(id[2], 5, false));
    assert!(!worker.begin_tick());
    assert!(worker.begin_tick());
    assert_eq!(worker.len(), 0);
}

#[test]
fn worker_never_stops_with_a_row() {
    let id = ids(6);
    let mut worker = Worker::new(at(0));
    let events = vec![
        create(id[0], "a", 0, true),
        close(id[0], 1, true),
        create(id[1], "b", 0, false),
        create(id[2], "c", 0, true),
        close(id[1], 1, false),
        BarEvent::Check,
        close(id[2], 1, true),
        create(id[3], "d", 0, true),
        close(id[4], 1, true),
        close(id[3], 1, true),
        close(id[3], 1, true),
    ];
    let mut stopped = false;
    for event in events {
        if worker.begin_tick() {
            assert_eq!(worker.len(), 0);
            stopped = true;
        }
        assert!(!stopped);
        worker.on_bar_event(event);
    }
    // one tick of the grace has passed inside the run; the next one ends it
    assert!(worker.begin_tick());
    assert_eq!(worker.len(), 0);
}
