use std::collections::{BTreeSet, HashSet};
use std::hash::{BuildHasher, Hash};
use vstd::layout::size_of;
use vstd::laws_cmp::obeys_cmp;
use vstd::prelude::*;
use vstd::std_specs::hash::{builds_valid_hashers, obeys_key_model};

use crate::setlike::Setlike;

verus! {

broadcast use {vstd::std_specs::hash::group_hash_axioms, vstd::std_specs::btree::group_btree_axioms};

/// A hash table sized for `k` elements of `T` fits in the address space: it
/// has at most `4k + 16` slots, each of one element and one control byte, and a
/// few bytes more.
pub open spec fn hash_table_fits<T>(k: usize) -> bool {
    (4 * k + 16) * (size_of::<T>() + 1) + 64 <= isize::MAX
}

/// Relies on std's `HashSet::with_capacity_and_hasher`: the set it makes is
/// empty. It panics ("capacity overflow") only where the table for `k`
/// elements would exceed `isize::MAX` bytes, which `hash_table_fits` excludes.
#[verifier::external_body]
fn hash_set_with_capacity_and_hasher<T, S>(k: usize, hasher: S) -> (r: HashSet<T, S>)
    requires
        hash_table_fits::<T>(k),
    ensures
        r@ == Set::<T>::empty(),
{
    HashSet::with_capacity_and_hasher(k, hasher)
}

impl<T: Eq + Hash, S: BuildHasher + Default> Setlike<T> for HashSet<T, S> {
    open spec fn members(&self) -> Set<T> {
        self@
    }

    open spec fn lawful() -> bool {
        obeys_key_model::<T>() && builds_valid_hashers::<S>()
    }

    open spec fn storable(el: T) -> bool {
        true
    }

    open spec fn sizable(k: usize) -> bool {
        hash_table_fits::<T>(k)
    }

    fn contains(&self, el: &T) -> (r: bool) {
        HashSet::contains(self, el)
    }

    fn insert(&mut self, el: T) -> (r: bool) {
        HashSet::insert(self, el)
    }

    fn remove(&mut self, el: &T) -> (r: bool) {
        HashSet::remove(self, el)
    }

    fn len(&self) -> (r: usize) {
        HashSet::len(self)
    }

    fn with_capacity(k: usize) -> (r: Self) {
        hash_set_with_capacity_and_hasher(k, S::default())
    }
}

impl<T: Ord> Setlike<T> for BTreeSet<T> {
    open spec fn members(&self) -> Set<T> {
        self@
    }

    open spec fn lawful() -> bool {
        obeys_cmp::<T>()
    }

    open spec fn storable(el: T) -> bool {
        true
    }

    open spec fn sizable(k: usize) -> bool {
        true
    }

    fn len(&self) -> (r: usize) {
        BTreeSet::len(self)
    }

    fn contains(&self, el: &T) -> (r: bool) {
        BTreeSet::contains(self, el)
    }

    fn insert(&mut self, el: T) -> (r: bool) {
        BTreeSet::insert(self, el)
    }

    fn remove(&mut self, el: &T) -> (r: bool) {
        BTreeSet::remove(self, el)
    }

    /// An ordered set has no notion of pre-sized storage: the hint is unused.
    fn with_capacity(_k: usize) -> (r: Self) {
        BTreeSet::new()
    }
}

} // verus!
