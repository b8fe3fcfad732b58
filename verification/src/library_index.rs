//! The outcome of every shader library that was resolved, by its source key.
//!
//! The same key yields the same source, so a failure is as much an answer as a
//! success. The index remembers both.

use rustc_hash::{FxBuildHasher, FxHashMap};
use std::borrow::Borrow;
use std::hash::Hash;
use vstd::prelude::*;
use vstd::std_specs::hash::*;

verus! {

broadcast use vstd::std_specs::hash::group_hash_axioms;

/// `rustc_hash::FxBuildHasher`, which builds the hashers of an `FxHashMap`.
#[verifier::external_type_specification]
#[verifier::external_body]
pub struct ExFxBuildHasher(FxBuildHasher);

/// What the index knows of a key.
#[derive(Debug, PartialEq, Eq)]
pub enum LibraryLookup<H> {
    /// The key was resolved to these handles.
    Ready(H),
    /// The key was resolved, and failed.
    Failed,
    /// The key was not resolved yet.
    Unknown,
}

/// What a map of outcomes says of a key.
pub open spec fn known<K, H>(outcomes: Map<K, Option<H>>, key: K) -> LibraryLookup<H> {
    if !outcomes.contains_key(key) {
        LibraryLookup::Unknown
    } else {
        match outcomes[key] {
            Some(handles) => LibraryLookup::Ready(handles),
            None => LibraryLookup::Failed,
        }
    }
}

/// The outcomes without the failures.
pub open spec fn successes<K, H>(outcomes: Map<K, Option<H>>) -> Map<K, Option<H>> {
    Map::new(|key: K| outcomes.contains_key(key) && outcomes[key] is Some, |key: K| outcomes[key])
}

/// `HashMap::get` on an `FxHashMap`: the value of the key, or `None` where the
/// map does not hold the key.
///
/// The hashers of `rustc_hash` all start from the same state and depend on the
/// values they are fed alone, so the map finds what it was given, provided that
/// the key type's own equality and hash are sound.
#[verifier::external_body]
fn get_entry<'a, K: Borrow<Q> + Eq + Hash, H, Q: Eq + Hash + ?Sized>(
    entries: &'a FxHashMap<K, Option<H>>,
    key: &Q,
) -> (r: Option<&'a Option<H>>)
    ensures
        obeys_key_model::<K>() ==> match r {
            Some(outcome) => maps_borrowed_key_to_value(entries@, key, *outcome),
            None => !contains_borrowed_key(entries@, key),
        },
{
    entries.get(key)
}

/// `HashMap::insert` on an `FxHashMap`: the key has the new value, and the
/// other keys keep theirs. See [`get_entry`] on the hashers.
#[verifier::external_body]
fn insert_entry<K: Eq + Hash, H>(
    entries: &mut FxHashMap<K, Option<H>>,
    key: K,
    outcome: Option<H>,
)
    ensures
        obeys_key_model::<K>() ==> final(entries)@ == old(entries)@.insert(key, outcome),
{
    entries.insert(key, outcome);
}

fn is_success<H>(outcome: &Option<H>) -> (r: bool)
    ensures
        r == (*outcome is Some),
{
    outcome.is_some()
}

/// `HashMap::retain` on an `FxHashMap`, with the test for a success: the entries
/// that pass stay as they are, and the others go.
#[verifier::external_body]
fn retain_successes<K: Eq + Hash, H>(entries: &mut FxHashMap<K, Option<H>>)
    ensures
        obeys_key_model::<K>() ==> final(entries)@ == successes(old(entries)@),
{
    entries.retain(|_, outcome| is_success(outcome));
}

/// The outcomes, by source key; `H` is the bundle of handles of a library.
pub struct LibraryIndex<K, H> {
    entries: FxHashMap<K, Option<H>>,
}

impl<K, H> View for LibraryIndex<K, H> {
    type V = Map<K, Option<H>>;

    closed spec fn view(&self) -> Map<K, Option<H>> {
        self.entries@
    }
}

impl<K, H> Default for LibraryIndex<K, H> {
    fn default() -> (r: Self)
        ensures
            r@ == Map::<K, Option<H>>::empty(),
    {
        LibraryIndex { entries: FxHashMap::default() }
    }
}

impl<K: Eq + Hash, H: Copy> LibraryIndex<K, H> {
    /// What is known of a key, which may be given in a borrowed form.
    pub fn lookup<Q>(&self, key: &Q) -> (r: LibraryLookup<H>) where
        K: Borrow<Q>,
        Q: Eq + Hash + ?Sized,

        ensures
            obeys_key_model::<K>() ==> match r {
                LibraryLookup::Ready(handles) => maps_borrowed_key_to_value(
                    self@,
                    key,
                    Some(handles),
                ),
                LibraryLookup::Failed => maps_borrowed_key_to_value(self@, key, None),
                LibraryLookup::Unknown => !contains_borrowed_key(self@, key),
            },
    {
        match get_entry(&self.entries, key) {
            Some(outcome) => match outcome {
                Some(handles) => LibraryLookup::Ready(*handles),
                None => LibraryLookup::Failed,
            },
            None => LibraryLookup::Unknown,
        }
    }

    /// Remembers how resolving a key ended; `None` is a failure.
    pub fn record(&mut self, key: K, outcome: Option<H>)
        ensures
            obeys_key_model::<K>() ==> final(self)@ == old(self)@.insert(key, outcome),
    {
        insert_entry(&mut self.entries, key, outcome);
    }

    /// Forgets the failures, so that each is resolved once more.
    pub fn forget_failures(&mut self)
        ensures
            obeys_key_model::<K>() ==> final(self)@ == successes(old(self)@),
    {
        retain_successes(&mut self.entries);
    }

    /// Forgets everything.
    pub fn clear(&mut self)
        ensures
            final(self)@ == Map::<K, Option<H>>::empty(),
    {
        self.entries.clear();
    }
}

/// A key that was recorded is known by its last outcome, and recording it leaves
/// what is known of the others.
pub proof fn recorded_outcomes_are_remembered<K, H>(
    outcomes: Map<K, Option<H>>,
    key: K,
    outcome: Option<H>,
    other: K,
)
    ensures
        known(outcomes.insert(key, outcome), key) == (match outcome {
            Some(handles) => LibraryLookup::Ready(handles),
            None => LibraryLookup::Failed,
        }),
        other != key ==> known(outcomes.insert(key, outcome), other) == known(outcomes, other),
{
}

/// Forgetting the failures makes exactly the failed keys unknown.
pub proof fn only_failures_are_forgotten<K, H>(outcomes: Map<K, Option<H>>, key: K)
    ensures
        known(successes(outcomes), key) == (if known(outcomes, key) == LibraryLookup::<H>::Failed {
            LibraryLookup::Unknown
        } else {
            known(outcomes, key)
        }),
{
}

/// For keys that are looked up in their own form, a lookup says what is known.
pub proof fn lookups_agree_with_the_outcomes<K, H>(
    outcomes: Map<K, Option<H>>,
    key: K,
    outcome: Option<H>,
)
    ensures
        maps_borrowed_key_to_value(outcomes, &key, outcome) ==> known(outcomes, key) == (
        match outcome {
            Some(handles) => LibraryLookup::Ready(handles),
            None => LibraryLookup::Failed,
        }),
        !contains_borrowed_key(outcomes, &key) ==> known(outcomes, key) == LibraryLookup::<
            H,
        >::Unknown,
{
}

} // verus!
