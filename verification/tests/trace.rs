use omnitrace_task::trace::{Func, In2Out, Trace, TraceExtCore};
use std::cell::Cell;

#[test]
fn identity_returns_its_input() {
    let mut cache = ();
    assert_eq!(In2Out.trace(7u32, &mut cache), 7);
    assert_eq!(In2Out.trace("x", &mut cache), "x");
}

#[test]
fn function_is_applied() {
    let double = Func(|x: u32| x * 2);
    assert_eq!(double.trace(21, &mut ()), 42);
}

#[test]
fn input_is_mapped_first_and_output_last() {
    let s = Func(|x: u32| x + 1).map_in(|x: u32| x * 10).map_out(|x: u32| x.to_string());
    let mut cache = Default::default();
    assert_eq!(s.trace(4, &mut cache), "41");
}

#[test]
fn chain_feeds_the_first_output_to_the_second() {
    let s = Func(|x: u32| x + 1).out2in(Func(|x: u32| x * 3));
    let mut cache = Default::default();
    assert_eq!(s.trace(1, &mut cache), 6);
}

#[test]
fn tuple_runs_each_part_on_its_own_input() {
    let s = (Func(|x: u32| x + 1), In2Out, Func(|x: &str| x.len()));
    let mut cache = Default::default();
    assert_eq!(s.trace((1, 'c', "four"), &mut cache), (2, 'c', 4));
    let one = (Func(|x: u32| x + 1),);
    assert_eq!(one.trace((1,), &mut Default::default()), (2,));
}

#[test]
fn reference_computes_as_the_computation() {
    let s = Func(|x: u32| x + 1);
    let by_ref = s.by_ref();
    assert_eq!(by_ref.trace(1, &mut ()), 2);
    let mapped = (&s).map_out(|x: u32| x * 2);
    assert_eq!(mapped.trace(1, &mut ()), 4);
    assert_eq!(s.trace(5, &mut ()), 6);
}

#[test]
fn wrap_hands_the_computation_to_a_function() {
    let s = Func(|x: u32| x + 1);
    let wrapped = s.wrap(|inner| inner.map_out(|x: u32| x * 2));
    assert_eq!(wrapped.trace(1, &mut ()), 4);
}

#[test]
fn lazy_wrapper_builds_once() {
    let built = Cell::new(0);
    let s = Func(|x: u32| x + 1);
    let lazy = s.wrap_lazy(|inner| {
        built.set(built.get() + 1);
        inner.map_out(|x: u32| x * 2)
    });
    let mut cache = Default::default();
    assert_eq!(built.get(), 0);
    assert_eq!(lazy.trace(1, &mut cache), 4);
    assert_eq!(lazy.trace(2, &mut cache), 6);
    assert_eq!(lazy.trace(3, &mut cache), 8);
    assert_eq!(built.get(), 1);
}

#[test]
fn cast_fixes_the_types() {
    let s = Func(|x: u32| x + 1).cast();
    assert_eq!(s.trace(1, &mut ()), 2);
}

struct Counter;

impl Trace<u32, u32> for Counter {
    type Cache = u32;
    fn trace(&self, input: u32, cache: &mut u32) -> u32 {
        *cache += input;
        *cache
    }
}

#[test]
fn cache_is_kept_between_runs() {
    let s = Counter.map_out(|x: u32| x * 2);
    let mut cache = Default::default();
    assert_eq!(s.trace(1, &mut cache), 2);
    assert_eq!(s.trace(2, &mut cache), 6);
    assert_eq!(s.trace(3, &mut cache), 12);
}
