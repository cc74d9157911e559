//! Running a computation over many inputs under a progress indicator.

use vstd::prelude::*;
use crate::bar::{advanced, reports, Bar, BarState};
use crate::event::UpdateEvent;
use crate::trace::Trace;

verus! {

/// Whether `outputs` are what `s` gives for `inputs`, run in order with
/// one cache that starts at its default and is handed from each run to
/// the next.
pub open spec fn runs_in_order<I, O, T: Trace<I, O>>(s: &T, inputs: Seq<I>, outputs: Seq<O>) -> bool {
    &&& outputs.len() == inputs.len()
    &&& exists|caches: Seq<T::Cache>|
        {
            &&& caches.len() == inputs.len() + 1
            &&& call_ensures(T::Cache::default, (), #[trigger] caches[0])
            &&& forall|at: int|
                0 <= at < inputs.len() ==> #[trigger] s.yields(
                    inputs[at],
                    caches[at],
                    caches[at + 1],
                    outputs[at],
                )
        }
}

/// Whether `updates` are the reports of a handle that starts in state
/// `start` and advances `steps` times by one: one report after each
/// advance where the handle has a total, none where it has not.
pub open spec fn reports_each_step(updates: Seq<UpdateEvent>, start: BarState, steps: nat) -> bool {
    if start.total is Some {
        &&& updates.len() == steps
        &&& forall|at: int|
            0 <= at < steps ==> reports(#[trigger] updates[at], advanced(start, (at + 1) as nat))
    } else {
        updates.len() == 0
    }
}

/// The total of an indicator for an iteration of at most `upper` items,
/// where such a bound is known.
pub fn total_of(upper: Option<usize>) -> (total: Option<u64>)
    ensures
        total == (match upper {
            Some(bound) => Some(bound as u64),
            None => None,
        }),
{
    match upper {
        Some(bound) => Some(bound as u64),
        None => None,
    }
}

/// One item of an iteration: the computation runs on `input`, and the
/// indicator advances by one. The result is the output and the report to
/// send, if any.
pub fn iterate_step<I, O, T: Trace<I, O>>(
    s: &T,
    input: I,
    cache: &mut T::Cache,
    bar: &mut Bar,
) -> (done: (O, Option<UpdateEvent>))
    requires
        s.admits(input, *old(cache)),
        old(bar)@.total is Some ==> old(bar)@.current < u64::MAX,
    ensures
        s.yields(input, *old(cache), *final(cache), done.0),
        final(bar)@ == advanced(old(bar)@, 1),
        final(bar)@.total is None ==> done.1 is None,
        final(bar)@.total is Some ==> done.1 is Some && reports(done.1->0, final(bar)@),
{
    let output = s.trace(input, cache);
    let report = bar.increment(1);
    (output, report)
}

/// Runs `s` on every input in order, with one cache that starts at its
/// default, and advances the indicator by one for each. The result holds
/// the outputs in the order of the inputs and the reports to send, one for
/// each item where the indicator has a total.
pub fn iterate_linear<I, O, T: Trace<I, O>>(bar: &mut Bar, inputs: Vec<I>, s: &T) -> (done: (
    Vec<O>,
    Vec<UpdateEvent>,
))
    requires
        forall|at: int, cache: T::Cache|
            0 <= at < inputs@.len() ==> #[trigger] s.admits(inputs@[at], cache),
        old(bar)@.total is Some ==> old(bar)@.current + inputs@.len() <= u64::MAX,
    ensures
        runs_in_order(s, inputs@, done.0@),
        final(bar)@ == advanced(old(bar)@, inputs@.len()),
        reports_each_step(done.1@, old(bar)@, inputs@.len()),
{
    let mut cache = T::Cache::default();
    let ghost mut caches: Seq<T::Cache> = seq![cache];
    let mut outputs: Vec<O> = Vec::new();
    let mut updates: Vec<UpdateEvent> = Vec::new();
    let ghost all = inputs@;
    for input in feed: inputs
        invariant
            all == feed.seq(),
            forall|at: int, cache: T::Cache|
                0 <= at < all.len() ==> #[trigger] s.admits(all[at], cache),
            old(bar)@.total is Some ==> old(bar)@.current + all.len() <= u64::MAX,
            outputs@.len() == feed.index(),
            caches.len() == feed.index() + 1,
            caches.last() == cache,
            call_ensures(T::Cache::default, (), caches[0]),
            forall|at: int|
                0 <= at < feed.index() ==> #[trigger] s.yields(
                    all[at],
                    caches[at],
                    caches[at + 1],
                    outputs@[at],
                ),
            bar@ == advanced(old(bar)@, feed.index() as nat),
            bar@.total is None ==> updates@.len() == 0,
            bar@.total is Some ==> {
                &&& updates@.len() == feed.index()
                &&& forall|at: int|
                    0 <= at < feed.index() ==> reports(
                        #[trigger] updates@[at],
                        advanced(old(bar)@, (at + 1) as nat),
                    )
            },
    {
        let (output, report) = iterate_step(s, input, &mut cache, bar);
        outputs.push(output);
        match report {
            Some(update) => updates.push(update),
            None => {},
        }
        proof {
            caches = caches.push(cache);
        }
    }
    (outputs, updates)
}

/// Runs `s` on every input in order under the indicator `bar`: the
/// outputs in the order of the inputs, and the reports to send.
pub fn iterate<I, O, T: Trace<I, O>>(bar: &mut Bar, inputs: Vec<I>, s: &T) -> (done: (
    Vec<O>,
    Vec<UpdateEvent>,
))
    requires
        forall|at: int, cache: T::Cache|
            0 <= at < inputs@.len() ==> #[trigger] s.admits(inputs@[at], cache),
        old(bar)@.total is Some ==> old(bar)@.current + inputs@.len() <= u64::MAX,
    ensures
        runs_in_order(s, inputs@, done.0@),
        final(bar)@ == advanced(old(bar)@, inputs@.len()),
        reports_each_step(done.1@, old(bar)@, inputs@.len()),
{
    iterate_linear(bar, inputs, s)
}

} // verus!
