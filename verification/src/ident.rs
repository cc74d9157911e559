//! Indicator identifiers and the counter that issues them.

use vstd::prelude::*;

verus! {

/// The number of distinct identifiers: the counter wraps after this many.
pub open spec fn id_space() -> nat {
    0x1_0000_0000
}

/// Identifies one indicator for as long as the process runs.
#[derive(Debug, Clone, Copy, PartialEq, Eq, Hash, Structural)]
pub struct BarId(u32);

impl View for BarId {
    type V = u32;

    /// The number behind the identifier.
    closed spec fn view(&self) -> u32 {
        self.0
    }
}

/// A monotonic counter from which identifiers are drawn.
#[derive(Debug)]
pub struct IdAllocator {
    next: u32,
}

/// The identifier that a counter standing at `first` issues at its `nth` draw.
pub open spec fn nth_id(first: u32, nth: nat) -> u32 {
    ((first + nth) % (id_space() as int)) as u32
}

impl IdAllocator {
    /// The number that the next draw will return.
    pub closed spec fn upcoming(&self) -> u32 {
        self.next
    }

    /// A counter that starts at zero.
    pub fn new() -> (source: IdAllocator)
        ensures
            source.upcoming() == 0,
    {
        IdAllocator { next: 0 }
    }
}

impl BarId {
    /// Draws the next identifier: the counter's value before the call,
    /// after which the counter stands one higher (and at zero after the
    /// last number).
    pub fn new(source: &mut IdAllocator) -> (id: BarId)
        ensures
            id@ == old(source).upcoming(),
            final(source).upcoming() == nth_id(old(source).upcoming(), 1),
    {
        let drawn: u32 = source.next;
        source.next = drawn.wrapping_add(1);
        BarId(drawn)
    }

    /// The number behind the identifier.
    pub fn value(&self) -> (raw: u32)
        ensures
            raw == self@,
    {
        self.0
    }
}

/// Two identifiers with the same number are the same identifier.
pub proof fn lemma_id_by_value(a: BarId, b: BarId)
    requires
        a@ == b@,
    ensures
        a == b,
{
}

/// Drawing once more continues the sequence of a counter.
pub proof fn lemma_nth_id_step(first: u32, nth: nat)
    ensures
        nth_id(first, 0) == first,
        nth_id(nth_id(first, nth), 1) == nth_id(first, nth + 1),
{
}

/// Draws from one counter are pairwise distinct until it has gone round:
/// any two draws fewer than 2^32 apart return different numbers.
pub proof fn lemma_ids_distinct(first: u32, earlier: nat, later: nat)
    requires
        earlier < later,
        later - earlier < id_space(),
    ensures
        nth_id(first, earlier) != nth_id(first, later),
{
}

} // verus!
