use vstd::prelude::*;

use crate::setlike::Setlike;

verus! {

/// A set of small non-negative integers, held as a `bit_set::BitSet`:
/// element `i` is bit `i`.
///
/// The bit vector sits in a private field, out of Verus's sight: its contents
/// are known through `bit_members`, which every operation below states how it
/// reads or changes.
#[verifier::external_body]
pub struct BitSet {
    bits: bit_set::BitSet,
}

/// The indices whose bits are set in a `BitSet`'s bit vector.
pub uninterp spec fn bit_members(s: BitSet) -> Set<usize>;

/// Relies on `bit_set::BitSet::with_capacity`: a bit vector of `nbits` cleared bits,
/// so no index is a member.
#[verifier::external_body]
fn bits_with_capacity(nbits: usize) -> (r: BitSet)
    ensures
        bit_members(r) == Set::<usize>::empty(),
{
    BitSet { bits: bit_set::BitSet::with_capacity(nbits) }
}

/// Relies on `bit_set::BitSet::contains`: whether bit `value` is set.
#[verifier::external_body]
fn bits_contains(s: &BitSet, value: usize) -> (r: bool)
    ensures
        r == bit_members(*s).contains(value),
{
    s.bits.contains(value)
}

/// Relies on `bit_set::BitSet::insert`: sets bit `value`, growing the bit vector to
/// `value + 1` bits where it is shorter, and returns whether the bit was clear.
/// Growing to `usize::MAX + 1` bits overflows and panics, so `value` is below
/// `usize::MAX`.
#[verifier::external_body]
fn bits_insert(s: &mut BitSet, value: usize) -> (r: bool)
    requires
        value < usize::MAX,
    ensures
        bit_members(*final(s)) == bit_members(*old(s)).insert(value),
        r == !bit_members(*old(s)).contains(value),
{
    s.bits.insert(value)
}

/// Relies on `bit_set::BitSet::remove`: clears bit `value` and returns whether it was
/// set.
#[verifier::external_body]
fn bits_remove(s: &mut BitSet, value: usize) -> (r: bool)
    ensures
        bit_members(*final(s)) == bit_members(*old(s)).remove(value),
        r == bit_members(*old(s)).contains(value),
{
    s.bits.remove(value)
}

/// Relies on `bit_set::BitSet::count`, which `bit_set::BitSet::len` forwards to: the number of
/// set bits.
#[verifier::external_body]
fn bits_count(s: &BitSet) -> (r: usize)
    ensures
        r == bit_members(*s).len(),
{
    s.bits.count()
}

/// Storage grows with the largest element stored, not with the number of
/// elements.
impl Setlike<usize> for BitSet {
    open spec fn members(&self) -> Set<usize> {
        bit_members(*self)
    }

    open spec fn lawful() -> bool {
        true
    }

    open spec fn storable(el: usize) -> bool {
        el < usize::MAX
    }

    open spec fn sizable(k: usize) -> bool {
        true
    }

    fn insert(&mut self, i: usize) -> (r: bool)
        ensures
            final(self).members() == old(self).members().insert(i),
            r == !old(self).members().contains(i),
    {
        bits_insert(self, i)
    }

    fn remove(&mut self, i: &usize) -> (r: bool)
        ensures
            final(self).members() == old(self).members().remove(*i),
            r == old(self).members().contains(*i),
    {
        bits_remove(self, *i)
    }

    fn len(&self) -> (r: usize)
        ensures
            r == self.members().len(),
    {
        bits_count(self)
    }

    fn contains(&self, i: &usize) -> (r: bool)
        ensures
            r == self.members().contains(*i),
    {
        bits_contains(self, *i)
    }

    /// Pre-allocates room for the indices below `k`.
    fn with_capacity(k: usize) -> (r: Self) {
        bits_with_capacity(k)
    }
}

} // verus!
