//! The map from identifier to screen row, kept in an Fx hash map.

use vstd::prelude::*;
use fxhash::FxHashMap;
use fxhash::FxHasher;
use std::hash::BuildHasherDefault;

verus! {

/// Trusted: the hasher of the `fxhash` crate, carried as an opaque value.
#[verifier::external_type_specification]
#[verifier::external_body]
pub struct ExFxHasher(FxHasher);

/// Trusted: the standard library's builder of default-constructed hashers,
/// carried as an opaque value.
#[verifier::external_type_specification]
#[verifier::external_body]
#[verifier::reject_recursive_types(H)]
pub struct ExBuildHasherDefault<H>(BuildHasherDefault<H>);

/// An empty row index.
///
/// Trusted: `FxHashMap::default()`, a hash map with the Fx hasher and no
/// entries.
#[verifier::external_body]
pub(crate) fn index_new() -> (fresh: FxHashMap<u32, usize>)
    ensures
        fresh@ == (Map::<u32, usize>::empty()),
{
    FxHashMap::default()
}

/// Records `row` for `key` and returns the row recorded before, if any.
///
/// Trusted: `HashMap::insert` on an Fx hash map. The Fx hasher is a pure
/// function of the key, so the map behaves as a finite map: the key is
/// bound to the new value, every other key keeps its value, and the old
/// value of the key is returned.
#[verifier::external_body]
pub(crate) fn index_insert(index: &mut FxHashMap<u32, usize>, key: u32, row: usize) -> (before:
    Option<usize>)
    ensures
        final(index)@ == old(index)@.insert(key, row),
        before == (if old(index)@.contains_key(key) {
            Some(old(index)@[key])
        } else {
            None
        }),
{
    index.insert(key, row)
}

/// Forgets `key` and returns the row recorded for it, if any.
///
/// Trusted: `HashMap::remove` on an Fx hash map: the key is unbound, every
/// other key keeps its value, and the value that the key had is returned.
#[verifier::external_body]
pub(crate) fn index_remove(index: &mut FxHashMap<u32, usize>, key: u32) -> (before: Option<usize>)
    ensures
        final(index)@ == old(index)@.remove(key),
        before == (if old(index)@.contains_key(key) {
            Some(old(index)@[key])
        } else {
            None
        }),
{
    index.remove(&key)
}

/// The row recorded for `key`, if any.
///
/// Trusted: `HashMap::get` on an Fx hash map: the value bound to the key,
/// or nothing where the key is unbound.
#[verifier::external_body]
pub(crate) fn index_get(index: &FxHashMap<u32, usize>, key: u32) -> (row: Option<usize>)
    ensures
        row == (if index@.contains_key(key) {
            Some(index@[key])
        } else {
            None
        }),
{
    index.get(&key).copied()
}

} // verus!
