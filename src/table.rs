//! The registry's table, a `DashMap` from timer ids to timers, seen through
//! its contents. `DashMap` changes through `&self`; the wrappers that change
//! it take `&mut` so that every change shows in the contracts, and the table
//! is owned by one registry, never shared.
use dashmap::DashMap;
use vstd::prelude::*;

use crate::timer::Timer;

verus! {

#[verifier::external_type_specification]
#[verifier::external_body]
#[verifier::reject_recursive_types(K)]
#[verifier::reject_recursive_types(V)]
#[verifier::reject_recursive_types(S)]
pub struct ExDashMap<K, V, S>(DashMap<K, V, S>);

/// What a table of timers holds, key by key.
pub uninterp spec fn table_contents(m: DashMap<u64, Timer>) -> Map<u64, Timer>;

/// Relies on `DashMap::new`: a new map is empty.
#[verifier::external_body]
pub(crate) fn table_new() -> (r: DashMap<u64, Timer>)
    ensures
        table_contents(r).dom() == Set::<u64>::empty(),
{
    DashMap::new()
}

/// Relies on `DashMap::insert`: the key maps to the value afterwards, and the
/// value that it held before, if any, is returned.
#[verifier::external_body]
pub(crate) fn table_insert(m: &mut DashMap<u64, Timer>, key: u64, value: Timer) -> (r: Option<Timer>)
    ensures
        table_contents(*final(m)) == table_contents(*old(m)).insert(key, value),
        r == table_contents(*old(m)).get(key),
{
    m.insert(key, value)
}

/// Relies on `DashMap::remove`: the key is gone afterwards, and the value that
/// it held, if any, is returned.
#[verifier::external_body]
pub(crate) fn table_remove(m: &mut DashMap<u64, Timer>, key: u64) -> (r: Option<Timer>)
    ensures
        table_contents(*final(m)) == table_contents(*old(m)).remove(key),
        r == table_contents(*old(m)).get(key),
{
    m.remove(&key).map(|(_, v)| v)
}

/// Relies on `DashMap::get`: the value that the key maps to, if any.
#[verifier::external_body]
pub(crate) fn table_get(m: &DashMap<u64, Timer>, key: u64) -> (r: Option<Timer>)
    ensures
        r == table_contents(*m).get(key),
{
    m.get(&key).map(|e| *e.value())
}

/// Relies on `DashMap::iter`: every entry is visited exactly once, in an
/// order that the map does not promise.
#[verifier::external_body]
pub(crate) fn table_entries(m: &DashMap<u64, Timer>) -> (r: Vec<(u64, Timer)>)
    ensures
        forall|i: int|
            0 <= i < r@.len() ==> table_contents(*m).get(#[trigger] r@[i].0) == Some(r@[i].1),
        forall|k: u64|
            table_contents(*m).contains_key(k) ==> exists|i: int|
                0 <= i < r@.len() && #[trigger] r@[i].0 == k,
        forall|i: int, j: int|
            0 <= i < r@.len() && 0 <= j < r@.len() && i != j ==> r@[i].0 != r@[j].0,
{
    m.iter().map(|e| (*e.key(), *e.value())).collect()
}

} // verus!
