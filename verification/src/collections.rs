//! The `fxhash` collections that the AI host keys by live-AI identifiers.
//!
//! `FxHashSet` and `FxHashMap` are std's `HashSet` and `HashMap` built with
//! fxhash's deterministic `FxHasher`. The items below declare those outside
//! types and give each std method that the host calls a contract over the
//! collection's view.

use std::hash::BuildHasherDefault;

use fxhash::{FxHashMap, FxHashSet, FxHasher};
use vstd::prelude::*;

verus! {

/// fxhash's hasher, carried through as the hash builder's type parameter.
#[verifier::external_type_specification]
#[verifier::external_body]
pub struct ExFxHasher(FxHasher);

/// std's hash builder that makes a fresh `H` through `Default` for every key.
#[verifier::external_type_specification]
#[verifier::external_body]
#[verifier::reject_recursive_types(H)]
pub struct ExBuildHasherDefault<H>(BuildHasherDefault<H>);

/// `HashSet::insert` on an `FxHashSet<u64>`: the key is in the set afterwards and
/// nothing else changes; the result says whether it was absent before. std
/// documents this for every hasher that hashes equal keys equally, which
/// `FxHasher` (a pure function of the written bytes) does.
#[verifier::external_body]
pub(crate) fn fx_set_insert(set: &mut FxHashSet<u64>, key: u64) -> (newly: bool)
    ensures
        final(set)@ == old(set)@.insert(key),
        newly == !old(set)@.contains(key),
{
    set.insert(key)
}

/// `HashSet::contains` on an `FxHashSet<u64>`: whether the key is in the set.
#[verifier::external_body]
pub(crate) fn fx_set_contains(set: &FxHashSet<u64>, key: u64) -> (present: bool)
    ensures
        present == set@.contains(key),
{
    set.contains(&key)
}

/// `HashSet::remove` on an `FxHashSet<u64>`: the key is gone afterwards and
/// nothing else changes; the result says whether it was present before.
#[verifier::external_body]
pub(crate) fn fx_set_remove(set: &mut FxHashSet<u64>, key: u64) -> (was_present: bool)
    ensures
        final(set)@ == old(set)@.remove(key),
        was_present == old(set)@.contains(key),
{
    set.remove(&key)
}

/// `HashSet::drain` on an `FxHashSet<u64>`, collected into a `Vec`: every key that
/// was in the set comes out exactly once (in the set's walk order, which nothing
/// here states) and the set is empty afterwards.
#[verifier::external_body]
pub(crate) fn fx_set_drain(set: &mut FxHashSet<u64>) -> (keys: Vec<u64>)
    ensures
        final(set)@ == Set::<u64>::empty(),
        keys@.to_set() == old(set)@,
        keys@.no_duplicates(),
{
    set.drain().collect()
}

/// `HashMap::get` on an `FxHashMap<u64, V>`, copied out: the value stored under
/// `key`, if any.
#[verifier::external_body]
pub(crate) fn fx_map_get<V: Copy>(map: &FxHashMap<u64, V>, key: u64) -> (value: Option<V>)
    ensures
        value == if map@.contains_key(key) { Some(map@[key]) } else { None::<V> },
{
    map.get(&key).copied()
}

/// `HashMap::insert` on an `FxHashMap<u64, V>`: `key` maps to `value` afterwards
/// and nothing else changes. The previous value, which std also returns, is
/// dropped here.
#[verifier::external_body]
pub(crate) fn fx_map_insert<V>(map: &mut FxHashMap<u64, V>, key: u64, value: V)
    ensures
        final(map)@ == old(map)@.insert(key, value),
{
    map.insert(key, value);
}

/// `HashMap::entry(key).or_insert(value)` on an `FxHashMap<u32, V>`, copied out:
/// an existing entry is kept and returned unchanged; otherwise `value` is
/// inserted under `key` and returned.
#[verifier::external_body]
pub(crate) fn fx_map_entry_or_insert<V: Copy>(map: &mut FxHashMap<u32, V>, key: u32, value: V) -> (stored: V)
    ensures
        old(map)@.contains_key(key) ==> final(map)@ == old(map)@ && stored == old(map)@[key],
        !old(map)@.contains_key(key) ==> final(map)@ == old(map)@.insert(key, value) && stored
            == value,
{
    *map.entry(key).or_insert(value)
}

} // verus!
