use omnitrace_task::ident::{BarId, IdAllocator};

#[test]
fn identifiers_count_up_from_zero() {
    let mut ids = IdAllocator::new();
    let first = BarId::new(&mut ids);
    let second = BarId::new(&mut ids);
    let third = BarId::new(&mut ids);
    assert_eq!(first.value(), 0);
    assert_eq!(second.value(), 1);
    assert_eq!(third.value(), 2);
}

#[test]
fn identifiers_from_one_counter_differ() {
    let mut ids = IdAllocator::new();
    let mut seen: Vec<BarId> = Vec::new();
    for _ in 0..1000 {
        let id = BarId::new(&mut ids);
        assert!(!seen.contains(&id));
        seen.push(id);
    }
    for (nth, id) in seen.iter().enumerate() {
        assert_eq!(id.value() as usize, nth);
    }
}

#[test]
fn identifiers_compare_by_number() {
    let mut ids = IdAllocator::new();
    let first = BarId::new(&mut ids);
    let copy = first;
    let second = BarId::new(&mut ids);
    assert_eq!(first, copy);
    assert_ne!(first, second);
}
