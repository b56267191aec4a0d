//! The store of a mock object's expectations, keyed by method.

use crate::mismatch::{CallCountMismatch, Mismatch};
use crate::tracked_method::{Expectation, TrackedMethod};
use std::collections::hash_map::Entry;
use std::collections::HashMap;
use std::hash::Hash;
use vstd::prelude::*;
use vstd::std_specs::hash::obeys_key_model;

verus! {

/// The store after `key` was given an entry, if it had none: a fresh one with
/// the given name and no target. An entry that is there keeps its name.
pub open spec fn track<K>(
    store: Map<K, Expectation>,
    key: K,
    name: Seq<char>,
) -> Map<K, Expectation> {
    if store.contains_key(key) {
        store
    } else {
        store.insert(key, Expectation::untracked(name))
    }
}

/// The store after exactly `calls` calls were asked of `key` under the given
/// name.
pub open spec fn expect_calls<K>(
    store: Map<K, Expectation>,
    key: K,
    name: Seq<char>,
    calls: int,
) -> Map<K, Expectation> {
    let entered = track(store, key, name);
    entered.insert(key, entered[key].expect_calls(calls))
}

/// The store after one call of `key` was reported. A key without an entry is
/// not tracked, and the report is dropped.
pub open spec fn record_call<K>(store: Map<K, Expectation>, key: K) -> Map<K, Expectation> {
    if store.contains_key(key) {
        store.insert(key, store[key].record_call())
    } else {
        store
    }
}

/// The store after `count` calls of `key` were reported.
pub open spec fn record_calls<K>(store: Map<K, Expectation>, key: K, count: nat) -> Map<
    K,
    Expectation,
>
    decreases count,
{
    if count == 0 {
        store
    } else {
        record_calls(record_call(store, key), key, (count - 1) as nat)
    }
}

/// Whether every entry of the store was called as often as expected.
pub open spec fn all_met<K>(store: Map<K, Expectation>) -> bool {
    forall|key: K| store.contains_key(key) ==> (#[trigger] store[key]).mismatch() is None
}

/// Whether some entry of the store fails verification with `mismatch`.
pub open spec fn reports<K>(store: Map<K, Expectation>, mismatch: Mismatch) -> bool {
    exists|key: K| store.contains_key(key) && (#[trigger] store[key]).mismatch() == Some(mismatch)
}

/// The expectations of one mock object, by method key.
#[derive(Debug)]
pub struct ExpectationStore<K> where K: Eq + Hash {
    inner: HashMap<K, TrackedMethod>,
}

/// A handle on the entry of one key, handed out by
/// [`ExpectationStore::track_method`] and used up by setting the target.
///
/// The handle borrows the entry from the store. What the store holds for the
/// key once the handle is gone is what the entry holds then, so a handle that
/// is dropped unused leaves the entry as it found it.
pub struct TrackedMethodGuard<'a, K> where K: 'a + Eq + Hash {
    /// The entry that the handle writes to.
    pub entry: &'a mut TrackedMethod,
    /// The key that the entry is kept under.
    pub key: Ghost<K>,
}

impl<'a, K> TrackedMethodGuard<'a, K> where K: 'a + Eq + Hash {
    /// A handle on `entry`, which the store keeps under `key`.
    pub(crate) fn new(entry: &'a mut TrackedMethod, key: Ghost<K>) -> (guard: Self)
        ensures
            guard.key == key,
            *guard.entry == *old(entry),
            *final(guard.entry) == *final(entry),
    {
        TrackedMethodGuard { entry, key }
    }

    /// Expects the method never to be called.
    pub fn called_never(self)
        ensures
            final(self.entry)@ == old(self.entry)@.expect_calls(0),
    {
        self.called_times(0)
    }

    /// Expects the method to be called exactly once.
    pub fn called_once(self)
        ensures
            final(self.entry)@ == old(self.entry)@.expect_calls(1),
    {
        self.called_times(1)
    }

    /// Expects the method to be called exactly `calls` times from now on.
    pub fn called_times(self, calls: i64)
        ensures
            final(self.entry)@ == old(self.entry)@.expect_calls(calls as int),
    {
        self.entry.expect_calls(calls);
    }
}

impl<K> View for ExpectationStore<K> where K: Eq + Hash {
    type V = Map<K, Expectation>;

    closed spec fn view(&self) -> Map<K, Expectation> {
        self.inner@.map_values(|method: TrackedMethod| method@)
    }
}

impl<K> ExpectationStore<K> where K: Eq + Hash {
    /// An empty store: no method is tracked.
    pub fn new() -> (store: Self)
        ensures
            store@ == Map::<K, Expectation>::empty(),
    {
        ExpectationStore { inner: HashMap::new() }
    }

    /// Whether `key` has an entry, with or without a target.
    pub fn is_tracked(&self, key: &K) -> (present: bool)
        requires
            obeys_key_model::<K>(),
        ensures
            present == self@.contains_key(*key),
    {
        self.inner.contains_key(key)
    }

    /// The entry of `key`, if it has one.
    pub fn get(&self, key: &K) -> (method: Option<&TrackedMethod>)
        requires
            obeys_key_model::<K>(),
        ensures
            match method {
                Some(m) => self@.contains_key(*key) && self@[*key] == m@,
                None => !self@.contains_key(*key),
            },
    {
        self.inner.get(key)
    }

    /// Begins to say what is expected of `key`. The key gets an entry under
    /// `name` unless it has one already, which keeps its name; the handle that
    /// is returned sets the entry's target.
    pub fn track_method<'a>(&'a mut self, key: K, name: String) -> (guard: TrackedMethodGuard<
        'a,
        K,
    >)
        requires
            obeys_key_model::<K>(),
        ensures
            guard.key@ == key,
            guard.entry@ == track(old(self)@, key, name@)[key],
            final(self)@ == track(old(self)@, key, name@).insert(key, final(guard.entry)@),
    {
        let entry = match self.inner.entry(key) {
            Entry::Occupied(occupied) => occupied.into_mut(),
            Entry::Vacant(vacant) => vacant.insert(TrackedMethod::new(name)),
        };
        TrackedMethodGuard::new(entry, Ghost(key))
    }

    /// Reports one call of `key`. A key without an entry is not tracked: the
    /// report is dropped.
    pub fn was_called(&mut self, key: K)
        requires
            obeys_key_model::<K>(),
            old(self)@.contains_key(key) ==> old(self)@[key].can_record(),
        ensures
            final(self)@ == record_call(old(self)@, key),
    {
        match self.inner.entry(key) {
            Entry::Occupied(mut occupied) => {
                occupied.get_mut().was_called();
            },
            Entry::Vacant(_) => {},
        }
    }

    /// Holds every entry's calls against its target, in no particular order,
    /// and stops at the first entry that fails.
    pub fn verify(&self) -> (outcome: Result<(), CallCountMismatch>)
        requires
            obeys_key_model::<K>(),
        ensures
            match outcome {
                Ok(_) => all_met(self@),
                Err(e) => reports(self@, e@),
            },
    {
        for (key, method) in entries: self.inner.iter()
            invariant
                forall|i: int|
                    0 <= i < entries.index() ==> (#[trigger] entries.seq()[i]).1@.mismatch()
                        is None,
        {
            match method.verify() {
                Ok(_) => {},
                Err(e) => {
                    proof {
                        assert(self.inner@.contains_key(*key) && self.inner@[*key] == *method);
                        assert(self@[*key].mismatch() == Some(e@));
                    }
                    return Err(e);
                },
            }
        }
        Ok(())
    }
}

} // verus!
