//! A set of values.
use crate::value::{Key, KeyView, TantivyValue, ValueView};
use rustc_hash::FxHashSet;
use vstd::prelude::*;

verus! {

/// The state that an `FxHashSet` makes its hashers from.
#[verifier::external_type_specification]
#[verifier::external_body]
pub struct ExFxBuildHasher(rustc_hash::FxBuildHasher);

/// The keys that an `FxHashSet` holds.
pub uninterp spec fn key_set(set: FxHashSet<Key>) -> Set<KeyView>;

/// An empty set.
///
/// This calls `rustc_hash::FxHashSet::default`. Not proved here: that the set holds nothing.
#[verifier::external_body]
fn key_set_default() -> (r: FxHashSet<Key>)
    ensures
        key_set(r) == Set::<KeyView>::empty(),
{
    FxHashSet::default()
}

/// Adds a key to a set.
///
/// This calls `rustc_hash::FxHashSet::insert`. Not proved here: that the set holds the key
/// afterwards, and otherwise what it held before.
#[verifier::external_body]
fn key_set_insert(set: &mut FxHashSet<Key>, key: Key)
    ensures
        key_set(*final(set)) == key_set(*old(set)).insert(crate::value::key_view(key)),
{
    set.insert(key);
}

/// Looks a key up in a set.
///
/// This calls `rustc_hash::FxHashSet::contains`. Not proved here: that the answer is whether the
/// set holds the key.
#[verifier::external_body]
fn key_set_contains(set: &FxHashSet<Key>, key: &Key) -> (r: bool)
    ensures
        r == key_set(*set).contains(crate::value::key_view(*key)),
{
    set.contains(key)
}

/// A set of values.
pub struct ValueSet {
    keys: FxHashSet<Key>,
}

impl ValueSet {
    /// A value that equals this one is in the set.
    pub closed spec fn holds(&self, value: ValueView) -> bool {
        crate::value::key_of(value) matches Some(key) && key_set(self.keys).contains(key)
    }

    /// An empty set.
    pub fn new() -> (r: Self)
        ensures
            forall|value: ValueView| !#[trigger] r.holds(value),
    {
        ValueSet { keys: key_set_default() }
    }

    /// Adds a value.
    pub fn insert(&mut self, value: &TantivyValue)
        ensures
            forall|other: ValueView| #[trigger]
                final(self).holds(other) <==> old(self).holds(other) || crate::value::same_value(
                    value@,
                    other,
                ),
    {
        proof {
            assert forall|other: ValueView| crate::value::same_value(value@, other)
                <==> crate::value::key_of(value@) is Some && #[trigger] crate::value::key_of(other)
                == crate::value::key_of(value@) by {
                crate::value::law_keys_tell_values_apart(value@, other);
            }
        }
        // A value without a key equals nothing, so nothing is found by it.
        if let Some(key) = value.key() {
            key_set_insert(&mut self.keys, key);
        }
    }

    /// Whether a value that equals this one is in the set.
    pub fn contains(&self, value: &TantivyValue) -> (r: bool)
        ensures
            r == self.holds(value@),
    {
        match value.key() {
            Some(key) => key_set_contains(&self.keys, &key),
            None => false,
        }
    }
}

} // verus!
