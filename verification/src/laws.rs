//! What holds of every store, whatever it is asked to do.

use crate::mismatch::Mismatch;
use crate::store::{
    all_met, expect_calls, record_call, record_calls, reports, track, ExpectationStore,
    TrackedMethodGuard,
};
use crate::tracked_method::Expectation;
use std::hash::Hash;
use vstd::prelude::*;

verus! {

/// Once a target is set it stays set, whatever is recorded or asked
/// afterwards; and without a target, recorded calls leave the expectation as
/// it is.
pub proof fn lemma_target_stays_set(expectation: Expectation, target: int, count: nat)
    ensures
        expectation.expect_calls(target).remaining is Some,
        expectation.remaining is Some ==> expectation.record_calls(count).remaining is Some,
        expectation.remaining is None ==> expectation.record_calls(count) == expectation,
    decreases count,
{
    if count > 0 {
        lemma_target_stays_set(expectation.record_call(), target, (count - 1) as nat);
    }
}

/// Calls reported for a key that was never given a target change nothing,
/// however many they are: the store is the same afterwards, and so is what
/// verification finds in it. This holds of a key without an entry and of a
/// key whose entry has no target.
pub proof fn lemma_calls_without_target_change_nothing<K>(
    store: Map<K, Expectation>,
    key: K,
    count: nat,
)
    requires
        !store.contains_key(key) || store[key].remaining is None,
    ensures
        record_calls(store, key, count) == store,
    decreases count,
{
    if count > 0 {
        assert(record_call(store, key) == store);
        lemma_calls_without_target_change_nothing(store, key, (count - 1) as nat);
    }
}

/// Verification finds fault only with a key that has an entry with a target:
/// a mismatch is reported if and only if some entry has that name and is owed
/// that number of calls, which is not zero. A store without entries passes.
pub proof fn lemma_only_targets_are_reported<K>(store: Map<K, Expectation>, mismatch: Mismatch)
    ensures
        reports(store, mismatch) <==> mismatch.deviation != 0 && exists|key: K|
            store.contains_key(key) && (#[trigger] store[key]) == (Expectation {
                name: mismatch.method_name,
                remaining: Some(mismatch.deviation),
            }),
        all_met(Map::<K, Expectation>::empty()),
        !reports(Map::<K, Expectation>::empty(), mismatch),
{
    if reports(store, mismatch) {
        let key = choose|key: K|
            store.contains_key(key) && (#[trigger] store[key]).mismatch() == Some(mismatch);
        assert(store[key].remaining == Some(mismatch.deviation));
    }
    if mismatch.deviation != 0 && exists|key: K|
        store.contains_key(key) && (#[trigger] store[key]) == (Expectation {
            name: mismatch.method_name,
            remaining: Some(mismatch.deviation),
        }) {
        let key = choose|key: K|
            store.contains_key(key) && (#[trigger] store[key]) == (Expectation {
                name: mismatch.method_name,
                remaining: Some(mismatch.deviation),
            });
        assert(store[key].mismatch() == Some(mismatch));
    }
}

/// Reported calls lower the calls owed by an entry one by one and touch
/// nothing else: not the entry's name, not another key's entry, not the set
/// of keys that have one.
pub proof fn lemma_calls_are_counted<K>(store: Map<K, Expectation>, key: K, count: nat)
    requires
        store.contains_key(key),
    ensures
        record_calls(store, key, count) == store.insert(key, store[key].record_calls(count)),
        store[key].record_calls(count).name == store[key].name,
        store[key].record_calls(count).remaining == match store[key].remaining {
            Some(owed) => Some(owed - count),
            None => None,
        },
    decreases count,
{
    if count > 0 {
        let next = record_call(store, key);
        lemma_calls_are_counted(next, key, (count - 1) as nat);
        assert(next.insert(key, next[key].record_calls((count - 1) as nat)) == store.insert(
            key,
            store[key].record_calls(count),
        ));
    } else {
        assert(store.insert(key, store[key]) == store);
    }
}

/// A key of which exactly `target` calls were asked passes verification if
/// and only if exactly `target` calls of it were reported afterwards. With
/// any other number of calls it fails under the name that its entry was
/// first given, with a deviation of `target` minus the calls reported.
pub proof fn lemma_verdict_is_target_minus_calls<K>(
    store: Map<K, Expectation>,
    key: K,
    name: Seq<char>,
    target: int,
    calls: nat,
)
    ensures
        ({
            let after = record_calls(expect_calls(store, key, name, target), key, calls);
            let first_name = if store.contains_key(key) {
                store[key].name
            } else {
                name
            };
            let mismatch = Mismatch { method_name: first_name, deviation: target - calls };
            &&& after.contains_key(key)
            &&& after[key].remaining == Some(target - calls)
            &&& calls == target ==> after[key].mismatch() is None
            &&& calls != target ==> after[key].mismatch() == Some(mismatch)
            &&& calls != target ==> !all_met(after) && reports(after, mismatch)
        }),
{
    let expected = expect_calls(store, key, name, target);
    lemma_calls_are_counted(expected, key, calls);
    let after = record_calls(expected, key, calls);
    assert(after[key].mismatch() is Some <==> calls != target);
}

/// Asking calls of one key and reporting calls of it leave every other key's
/// entry, and its absence, as they were.
pub proof fn lemma_other_keys_are_untouched<K>(
    store: Map<K, Expectation>,
    key: K,
    name: Seq<char>,
    target: int,
    calls: nat,
    other: K,
)
    requires
        other != key,
    ensures
        track(store, key, name).contains_key(other) == store.contains_key(other),
        expect_calls(store, key, name, target).contains_key(other) == store.contains_key(other),
        record_calls(store, key, calls).contains_key(other) == store.contains_key(other),
        store.contains_key(other) ==> {
            &&& track(store, key, name)[other] == store[other]
            &&& expect_calls(store, key, name, target)[other] == store[other]
            &&& record_calls(store, key, calls)[other] == store[other]
        },
{
    if store.contains_key(key) {
        lemma_calls_are_counted(store, key, calls);
    } else {
        lemma_calls_without_target_change_nothing(store, key, calls);
    }
}

/// Asked twice of the same store and the same key, `is_tracked` answers the
/// same.
pub proof fn lemma_is_tracked_repeats<K: Eq + Hash>(
    store: &ExpectationStore<K>,
    key: &K,
    first: bool,
    second: bool,
)
    requires
        call_ensures(ExpectationStore::<K>::is_tracked, (store, key), first),
        call_ensures(ExpectationStore::<K>::is_tracked, (store, key), second),
    ensures
        first == second,
{
}

/// Whether a key has an entry changes only when the key itself is given one:
/// reported calls, of this key or another, never add or remove an entry, and
/// a key that has an entry keeps it.
pub proof fn lemma_tracking_is_stable<K>(
    store: Map<K, Expectation>,
    key: K,
    called: K,
    count: nat,
    name: Seq<char>,
    target: int,
)
    ensures
        record_calls(store, called, count).contains_key(key) == store.contains_key(key),
        store.contains_key(key) ==> track(store, called, name).contains_key(key),
        store.contains_key(key) ==> expect_calls(store, called, name, target).contains_key(key),
        track(store, key, name).contains_key(key),
        expect_calls(store, key, name, target).contains_key(key),
{
    if store.contains_key(called) {
        lemma_calls_are_counted(store, called, count);
    } else {
        lemma_calls_without_target_change_nothing(store, called, count);
    }
}

/// `called_never` does what `called_times(0)` does: used on entries of equal
/// value, they leave entries of equal value.
pub proof fn lemma_called_never_is_called_times_zero<'a, K: Eq + Hash>(
    one: TrackedMethodGuard<'a, K>,
    other: TrackedMethodGuard<'a, K>,
)
    requires
        one.entry@ == other.entry@,
        call_ensures(TrackedMethodGuard::<'a, K>::called_never, (one,), ()),
        call_ensures(TrackedMethodGuard::<'a, K>::called_times, (other, 0i64), ()),
    ensures
        final(one.entry)@ == final(other.entry)@,
{
}

/// `called_once` does what `called_times(1)` does: used on entries of equal
/// value, they leave entries of equal value.
pub proof fn lemma_called_once_is_called_times_one<'a, K: Eq + Hash>(
    one: TrackedMethodGuard<'a, K>,
    other: TrackedMethodGuard<'a, K>,
)
    requires
        one.entry@ == other.entry@,
        call_ensures(TrackedMethodGuard::<'a, K>::called_once, (one,), ()),
        call_ensures(TrackedMethodGuard::<'a, K>::called_times, (other, 1i64), ()),
    ensures
        final(one.entry)@ == final(other.entry)@,
{
}

/// Calls add up: it makes no difference whether they are reported in one run
/// or in two.
pub proof fn lemma_calls_add_up<K>(store: Map<K, Expectation>, key: K, first: nat, second: nat)
    ensures
        record_calls(record_calls(store, key, first), key, second) == record_calls(
            store,
            key,
            first + second,
        ),
    decreases first,
{
    if first > 0 {
        lemma_calls_add_up(record_call(store, key), key, (first - 1) as nat, second);
    }
}

/// Calls of one key that come in from several sides sum up: when the calls
/// that were asked of the key have all been reported, in whatever runs, the
/// key passes, and one call more makes it fail by one call too many.
pub proof fn lemma_all_expected_calls_pass_and_one_more_fails<K>(
    store: Map<K, Expectation>,
    key: K,
    name: Seq<char>,
    first: nat,
    second: nat,
)
    ensures
        ({
            let expected = expect_calls(store, key, name, (first + second) as int);
            let after = record_calls(record_calls(expected, key, first), key, second);
            &&& after.contains_key(key)
            &&& after[key].mismatch() is None
            &&& record_call(after, key)[key].mismatch() == Some(
                Mismatch { method_name: expected[key].name, deviation: -1 },
            )
        }),
{
    let expected = expect_calls(store, key, name, (first + second) as int);
    lemma_calls_add_up(expected, key, first, second);
    lemma_calls_are_counted(expected, key, first + second);
}

/// Calls of two keys may be reported in either order: the store that results
/// is the same.
pub proof fn lemma_calls_commute<K>(store: Map<K, Expectation>, one: K, other: K)
    ensures
        record_call(record_call(store, one), other) == record_call(record_call(store, other), one),
{
}

} // verus!
