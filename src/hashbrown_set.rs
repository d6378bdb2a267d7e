use vstd::prelude::*;

use crate::setlike::Setlike;

verus! {

/// A `hashbrown::HashSet` of integers.
///
/// The table sits in a private field, out of Verus's sight: its contents are
/// known through `hashbrown_members`, which every operation below states how
/// it reads or changes.
#[verifier::external_body]
pub struct HashBrownSet {
    table: hashbrown::HashSet<usize>,
}

/// The elements held in a `HashBrownSet`'s table.
pub uninterp spec fn hashbrown_members(s: HashBrownSet) -> Set<usize>;

/// Relies on `hashbrown::HashSet::with_capacity_and_hasher`: an empty set. It
/// panics ("capacity overflow") only where the table for `k` elements would
/// exceed `isize::MAX` bytes. The table has at most `4k + 16` slots of one
/// `usize` and one control byte each, and a few bytes more, which the bound
/// on `k` keeps within that size.
#[verifier::external_body]
fn hashbrown_with_capacity(k: usize) -> (r: HashBrownSet)
    requires
        k <= isize::MAX / 64,
    ensures
        hashbrown_members(r) == Set::<usize>::empty(),
{
    HashBrownSet {
        table: hashbrown::HashSet::with_capacity_and_hasher(k, Default::default()),
    }
}

/// Relies on `hashbrown::HashSet::contains`: whether `value` is in the table.
#[verifier::external_body]
fn hashbrown_contains(s: &HashBrownSet, value: &usize) -> (r: bool)
    ensures
        r == hashbrown_members(*s).contains(*value),
{
    s.table.contains(value)
}

/// Relies on `hashbrown::HashSet::insert`: adds `value`, and returns whether
/// it was absent.
#[verifier::external_body]
fn hashbrown_insert(s: &mut HashBrownSet, value: usize) -> (r: bool)
    ensures
        hashbrown_members(*final(s)) == hashbrown_members(*old(s)).insert(value),
        r == !hashbrown_members(*old(s)).contains(value),
{
    s.table.insert(value)
}

/// Relies on `hashbrown::HashSet::remove`: takes `value` out, and returns
/// whether it was present.
#[verifier::external_body]
fn hashbrown_remove(s: &mut HashBrownSet, value: &usize) -> (r: bool)
    ensures
        hashbrown_members(*final(s)) == hashbrown_members(*old(s)).remove(*value),
        r == hashbrown_members(*old(s)).contains(*value),
{
    s.table.remove(value)
}

/// Relies on `hashbrown::HashSet::len`: the number of elements.
#[verifier::external_body]
fn hashbrown_len(s: &HashBrownSet) -> (r: usize)
    ensures
        r == hashbrown_members(*s).len(),
{
    s.table.len()
}

impl Setlike<usize> for HashBrownSet {
    open spec fn members(&self) -> Set<usize> {
        hashbrown_members(*self)
    }

    open spec fn lawful() -> bool {
        true
    }

    open spec fn storable(el: usize) -> bool {
        true
    }

    open spec fn sizable(k: usize) -> bool {
        k <= isize::MAX / 64
    }

    fn insert(&mut self, i: usize) -> (r: bool)
        ensures
            final(self).members() == old(self).members().insert(i),
            r == !old(self).members().contains(i),
    {
        hashbrown_insert(self, i)
    }

    fn remove(&mut self, i: &usize) -> (r: bool)
        ensures
            final(self).members() == old(self).members().remove(*i),
            r == old(self).members().contains(*i),
    {
        hashbrown_remove(self, i)
    }

    fn len(&self) -> (r: usize)
        ensures
            r == self.members().len(),
    {
        hashbrown_len(self)
    }

    fn contains(&self, i: &usize) -> (r: bool)
        ensures
            r == self.members().contains(*i),
    {
        hashbrown_contains(self, i)
    }

    /// Pre-allocates buckets for `k` elements.
    fn with_capacity(k: usize) -> (r: Self) {
        hashbrown_with_capacity(k)
    }
}

} // verus!
