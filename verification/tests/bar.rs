use omnitrace_task::bar::Bar;
use omnitrace_task::clock::Timestamp;
use omnitrace_task::event::{BarEvent, UpdateEvent};
use omnitrace_task::ident::IdAllocator;
use omnitrace_task::registry::{send_update_event, Delivery, TrySend};

fn at(nanos: u64) -> Timestamp {
    Timestamp { nanos }
}

#[test]
fn new_handle_announces_itself() {
    let mut ids = IdAllocator::new();
    let (bar, event) = Bar::new(&mut ids, String::from("load"), Some(10), at(5));
    assert_eq!(bar.id().value(), 0);
    assert_eq!(bar.current(), 0);
    assert_eq!(bar.total(), Some(10));
    assert!(bar.finish());
    assert_eq!(
        event,
        BarEvent::New { id: bar.id(), name: String::from("load"), time: at(5), progress: true }
    );
    let (spinner, event) = Bar::new(&mut ids, String::from("wait"), None, at(6));
    assert_eq!(spinner.id().value(), 1);
    assert_eq!(spinner.total(), None);
    assert_eq!(
        event,
        BarEvent::New { id: spinner.id(), name: String::from("wait"), time: at(6), progress: false }
    );
}

#[test]
fn three_advances_reach_exactly_one_thousand() {
    let mut ids = IdAllocator::new();
    let (mut bar, _) = Bar::new(&mut ids, String::from("load"), Some(10), at(0));
    let id = bar.id();
    assert_eq!(bar.increment(3), Some(UpdateEvent { id, permille: 300, decrement: false }));
    assert_eq!(bar.increment(4), Some(UpdateEvent { id, permille: 700, decrement: false }));
    assert_eq!(bar.increment(3), Some(UpdateEvent { id, permille: 1000, decrement: false }));
    assert_eq!(bar.current(), 10);
}

#[test]
fn one_advance_beyond_the_total_clamps() {
    let mut ids = IdAllocator::new();
    let (mut bar, _) = Bar::new(&mut ids, String::from("load"), Some(10), at(0));
    let id = bar.id();
    assert_eq!(bar.increment(15), Some(UpdateEvent { id, permille: 1000, decrement: false }));
    assert_eq!(bar.current(), 15);
    assert_eq!(bar.increment(1), Some(UpdateEvent { id, permille: 1000, decrement: false }));
}

#[test]
fn advancing_by_nothing_reports_nothing() {
    let mut ids = IdAllocator::new();
    let (mut bar, _) = Bar::new(&mut ids, String::from("load"), Some(10), at(0));
    assert_eq!(bar.increment(0), None);
    assert_eq!(bar.current(), 0);
}

#[test]
fn advancing_a_spinner_reports_nothing() {
    let mut ids = IdAllocator::new();
    let (mut bar, _) = Bar::new(&mut ids, String::from("wait"), None, at(0));
    assert_eq!(bar.increment(7), None);
    assert_eq!(bar.current(), 0);
}

#[test]
fn advancing_an_empty_total_is_complete_at_once() {
    let mut ids = IdAllocator::new();
    let (mut bar, _) = Bar::new(&mut ids, String::from("none"), Some(0), at(0));
    let id = bar.id();
    assert_eq!(bar.increment(1), Some(UpdateEvent { id, permille: 1000, decrement: false }));
}

#[test]
fn teardown_carries_the_finalize_flag() {
    let mut ids = IdAllocator::new();
    let (bar, _) = Bar::new(&mut ids, String::from("load"), Some(10), at(0));
    let id = bar.id();
    assert_eq!(bar.close(at(9)), BarEvent::Close { id, time: at(9), mark: true });
    let bar = bar.finish_on_drop(false);
    assert!(!bar.finish());
    assert_eq!(bar.id(), id);
    assert_eq!(bar.total(), Some(10));
    assert_eq!(bar.close(at(11)), BarEvent::Close { id, time: at(11), mark: false });
    let bar = bar.finish_on_drop(true);
    assert_eq!(bar.close(at(12)), BarEvent::Close { id, time: at(12), mark: true });
}

#[test]
fn count_must_fit() {
    let mut ids = IdAllocator::new();
    let (mut bar, _) = Bar::new(&mut ids, String::from("big"), Some(u64::MAX), at(0));
    assert!(bar.can_increment(u64::MAX));
    let id = bar.id();
    assert_eq!(
        bar.increment(u64::MAX - 1),
        Some(UpdateEvent { id, permille: 1000, decrement: false })
    );
    assert!(bar.can_increment(0));
    assert!(bar.can_increment(1));
    assert!(!bar.can_increment(2));
    let (spinner, _) = Bar::new(&mut ids, String::from("wait"), None, at(0));
    assert!(spinner.can_increment(u64::MAX));
}

#[test]
fn flooded_producer_goes_on_counting() {
    let mut ids = IdAllocator::new();
    let (mut bar, _) = Bar::new(&mut ids, String::from("flood"), Some(1_000_000), at(0));
    let mut lost = 0;
    for advance in 1..=1000u64 {
        let report = bar.increment(7).unwrap();
        assert!(report.permille <= 1000);
        // the channel is full every time: the report is lost, which is no error
        assert_eq!(send_update_event(Some(TrySend::Full)), Delivery::Dropped);
        lost += 1;
        assert_eq!(bar.current(), 7 * advance);
    }
    assert_eq!(lost, 1000);
    assert_eq!(bar.current(), 7000);
}
