use dashmap::DashMap;
use vstd::prelude::*;

use crate::table::{table_contents, table_entries, table_get, table_insert, table_new, table_remove};
use crate::timer::{info_of, Timer, TimerId, TimerInfoForClient};

verus! {

/// The registry: every live timer under its identifier.
pub struct Timers {
    table: DashMap<u64, Timer>,
}

/// `s` lists every timer of `m` exactly once, as seen at `now`, in some order.
pub open spec fn is_snapshot(s: Seq<TimerInfoForClient>, m: Map<u64, Timer>, now: u64) -> bool {
    &&& forall|i: int|
        0 <= i < s.len() ==> m.contains_key(#[trigger] s[i].id.0) && s[i] == info_of(
            s[i].id.0,
            m[s[i].id.0],
            now,
        )
    &&& forall|k: u64| m.contains_key(k) ==> exists|i: int| 0 <= i < s.len() && #[trigger] s[i].id.0 == k
    &&& forall|i: int, j: int| 0 <= i < s.len() && 0 <= j < s.len() && i != j ==> s[i].id != s[j].id
}

impl View for Timers {
    type V = Map<u64, Timer>;

    closed spec fn view(&self) -> Map<u64, Timer> {
        table_contents(self.table)
    }
}

impl Default for Timers {
    fn default() -> (r: Timers)
        ensures
            r@.dom() == Set::<u64>::empty(),
    {
        Timers::new()
    }
}

impl Timers {
    /// An empty registry.
    pub fn new() -> (r: Timers)
        ensures
            r@.dom() == Set::<u64>::empty(),
    {
        Timers { table: table_new() }
    }

    /// Registers a new timer. The identifier must be unused: identifiers
    /// come from one counter, so a collision is a bug, not a user error.
    pub fn add(&mut self, id: TimerId, timer: Timer)
        requires
            !old(self)@.contains_key(id.0),
        ensures
            final(self)@ == old(self)@.insert(id.0, timer),
    {
        let _ = table_insert(&mut self.table, id.0, timer);
    }

    /// The state of timer `id`, if it is live.
    pub fn get(&self, id: TimerId) -> (r: Option<Timer>)
        ensures
            r == self@.get(id.0),
    {
        table_get(&self.table, id.0)
    }

    /// Gives the live timer `id` a new state.
    pub fn replace(&mut self, id: TimerId, timer: Timer)
        requires
            old(self)@.contains_key(id.0),
        ensures
            final(self)@ == old(self)@.insert(id.0, timer),
    {
        let _ = table_insert(&mut self.table, id.0, timer);
    }

    /// Removes timer `id` on a client's request; an unknown id is no error.
    pub fn remove(&mut self, id: TimerId) -> (r: Option<Timer>)
        ensures
            final(self)@ == old(self)@.remove(id.0),
            r == old(self)@.get(id.0),
    {
        table_remove(&mut self.table, id.0)
    }

    /// Removes timer `id` after its countdown has expired; the caller has
    /// confirmed that it is live.
    pub(crate) fn elapse(&mut self, id: TimerId)
        requires
            old(self)@.contains_key(id.0),
        ensures
            final(self)@ == old(self)@.remove(id.0),
    {
        let _ = table_remove(&mut self.table, id.0);
    }

    /// A snapshot of every live timer as of `now`.
    pub fn get_timerinfo_for_client(&self, now: u64) -> (r: Vec<TimerInfoForClient>)
        ensures
            is_snapshot(r@, self@, now),
    {
        let entries = table_entries(&self.table);
        let mut out: Vec<TimerInfoForClient> = Vec::new();
        let mut i: usize = 0;
        while i < entries.len()
            invariant
                i <= entries@.len(),
                out@.len() == i,
                forall|j: int|
                    0 <= j < entries@.len() ==> self@.get(#[trigger] entries@[j].0) == Some(
                        entries@[j].1,
                    ),
                forall|a: int, b: int|
                    0 <= a < entries@.len() && 0 <= b < entries@.len() && a != b
                        ==> entries@[a].0 != entries@[b].0,
                forall|j: int|
                    0 <= j < i ==> #[trigger] out@[j] == info_of(entries@[j].0, entries@[j].1, now),
            decreases entries@.len() - i,
        {
            let (id, timer) = entries[i];
            out.push(TimerInfoForClient::new(TimerId(id), &timer, now));
            i = i + 1;
        }
        proof {
            assert forall|k: u64| self@.contains_key(k) implies exists|j: int|
                0 <= j < out@.len() && #[trigger] out@[j].id.0 == k by {
                let j = choose|j: int| 0 <= j < entries@.len() && #[trigger] entries@[j].0 == k;
                assert(out@[j].id.0 == k);
            }
            assert forall|a: int|
                0 <= a < out@.len() implies self@.contains_key(#[trigger] out@[a].id.0) && out@[a]
                == info_of(out@[a].id.0, self@[out@[a].id.0], now) by {
                assert(self@.get(entries@[a].0) == Some(entries@[a].1));
            }
            assert forall|a: int, b: int|
                0 <= a < out@.len() && 0 <= b < out@.len() && a != b implies out@[a].id
                != out@[b].id by {
                assert(out@[a].id.0 == entries@[a].0);
                assert(out@[b].id.0 == entries@[b].0);
            }
        }
        out
    }
}

} // verus!
