//! The hash maps that back the two unbounded caches, keyed by a 64-bit id.
//!
//! `rustc_hash::FxHashMap` is std's `HashMap` with a fixed, unseeded hasher.
//! Verus is told nothing about that hasher, so each map operation that the
//! library uses is stated here, over the map's view, and believed.

use rustc_hash::FxHashMap;
use vstd::prelude::*;

verus! {

/// `rustc_hash::FxBuildHasher`, the hasher of an `FxHashMap`: carried
/// through as it is, nothing is known of it.
#[verifier::external_type_specification]
#[verifier::external_body]
pub struct ExFxBuildHasher(rustc_hash::FxBuildHasher);

/// `FxHashMap::default`: a map that holds nothing.
#[verifier::external_body]
pub(crate) fn fx_new<V>() -> (table: FxHashMap<u64, V>)
    ensures
        table@.dom() == Set::<u64>::empty(),
{
    FxHashMap::default()
}

/// `HashMap::contains_key` on an `FxHashMap`: whether `key` has an entry.
#[verifier::external_body]
pub(crate) fn fx_contains_key<V>(table: &FxHashMap<u64, V>, key: u64) -> (found: bool)
    ensures
        found == table@.contains_key(key),
{
    table.contains_key(&key)
}

/// `HashMap::get` on an `FxHashMap`: the value stored under `key`, if any.
#[verifier::external_body]
pub(crate) fn fx_get<V>(table: &FxHashMap<u64, V>, key: u64) -> (found: Option<&V>)
    ensures
        found is Some <==> table@.contains_key(key),
        found is Some ==> *found->0 == table@[key],
{
    table.get(&key)
}

/// `HashMap::insert` on an `FxHashMap`: afterwards `key` maps to `value`, and
/// every other entry is as it was.
#[verifier::external_body]
pub(crate) fn fx_insert<V>(table: &mut FxHashMap<u64, V>, key: u64, value: V)
    ensures
        final(table)@ == old(table)@.insert(key, value),
{
    table.insert(key, value);
}

} // verus!
