//! The concurrent keyed store of outstanding challenges. Entries are owned
//! exclusively by the registry; every access goes through it, and its atomic
//! take-and-remove is the single point that arbitrates the race between a
//! user's response and the expiry timer.

use vstd::prelude::*;

use crate::question::MathQuestion;

verus! {

/// The mutable record of one outstanding challenge. Created with `resolved`
/// false; whichever actor wins the race removes the entry, so the registry
/// never holds a resolved one.
#[derive(Clone, Copy, Debug, PartialEq, Eq, Structural)]
pub struct ChallengeEntry {
    /// The user under challenge.
    pub subject_id: u64,
    /// The question issued to that user.
    pub question: MathQuestion,
    /// Whether some actor already settled this challenge.
    pub resolved: bool,
}

#[verifier::external_type_specification]
#[verifier::external_body]
#[verifier::reject_recursive_types(K)]
#[verifier::reject_recursive_types(V)]
#[verifier::reject_recursive_types(S)]
pub struct ExDashMap<K, V, S>(dashmap::DashMap<K, V, S>);

/// The entries a dashmap::DashMap of challenge entries currently holds, as a
/// mathematical map from key to entry.
pub uninterp spec fn dash_map_entries(m: dashmap::DashMap<i64, ChallengeEntry>) -> Map<
    i64,
    ChallengeEntry,
>;

/// A keyed store of challenge entries. Backed by a sharded concurrent hash
/// map whose removal is atomic: among concurrent `take` calls on one key, at
/// most one receives the entry, which is what the lifecycle's exactly-once
/// guarantee rests on.
pub struct Registry {
    pub map: dashmap::DashMap<i64, ChallengeEntry>,
}

impl View for Registry {
    type V = Map<i64, ChallengeEntry>;

    open spec fn view(&self) -> Map<i64, ChallengeEntry> {
        dash_map_entries(self.map)
    }
}

/// Relies on dashmap::DashMap::new: a freshly created map holds nothing.
#[verifier::external_body]
fn empty_dash_map() -> (m: dashmap::DashMap<i64, ChallengeEntry>)
    ensures
        forall|k: i64| !dash_map_entries(m).contains_key(k),
{
    dashmap::DashMap::new()
}

impl Registry {
    /// A registry with no outstanding challenge.
    pub fn new() -> (reg: Registry)
        ensures
            reg@ == Map::<i64, ChallengeEntry>::empty(),
    {
        let reg = Registry { map: empty_dash_map() };
        proof {
            assert(reg@ =~= Map::<i64, ChallengeEntry>::empty());
        }
        reg
    }

    /// Add an entry under `key`. An entry already stored under the same key is
    /// overwritten; callers keep keys collision-free per outstanding
    /// challenge. Relies on dashmap::DashMap::insert: the map afterwards
    /// holds `entry` under `key` and is otherwise unchanged.
    #[verifier::external_body]
    pub fn insert(&mut self, key: i64, entry: ChallengeEntry)
        ensures
            dash_map_entries(final(self).map) == dash_map_entries(old(self).map).insert(
                key,
                entry,
            ),
    {
        self.map.insert(key, entry);
    }

    /// Look at the entry under `key` without removing it. Relies on
    /// dashmap::DashMap::get: it returns the value stored under the key, or
    /// nothing when the key is absent.
    #[verifier::external_body]
    pub fn get(&self, key: i64) -> (r: Option<ChallengeEntry>)
        ensures
            dash_map_entries(self.map).contains_key(key) ==> r == Some(
                dash_map_entries(self.map)[key],
            ),
            !dash_map_entries(self.map).contains_key(key) ==> r == None::<ChallengeEntry>,
    {
        self.map.get(&key).map(|e| *e)
    }

    /// Atomically remove and return the entry under `key`. Relies on
    /// dashmap::DashMap::remove: it returns the stored pair and deletes it,
    /// or returns nothing when the key is absent; per-shard locking makes the
    /// removal atomic, so of two concurrent calls on one key at most one
    /// receives the entry.
    #[verifier::external_body]
    pub fn take(&mut self, key: i64) -> (r: Option<ChallengeEntry>)
        ensures
            dash_map_entries(old(self).map).contains_key(key) ==> r == Some(
                dash_map_entries(old(self).map)[key],
            ) && dash_map_entries(final(self).map) == dash_map_entries(old(self).map).remove(key),
            !dash_map_entries(old(self).map).contains_key(key) ==> r == None::<ChallengeEntry>
                && dash_map_entries(final(self).map) == dash_map_entries(old(self).map),
    {
        self.map.remove(&key).map(|kv| kv.1)
    }
}

} // verus!
