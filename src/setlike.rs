use vstd::prelude::*;

verus! {

/// What `insert(u)` leaves in a container whose elements were `m`, and what
/// it returns: the elements with `u` added, and whether `u` was absent.
pub open spec fn after_insert<T>(m: Set<T>, u: T) -> (Set<T>, bool) {
    (m.insert(u), !m.contains(u))
}

/// What `remove(u)` leaves in a container whose elements were `m`, and what
/// it returns: the elements without `u`, and whether `u` was present.
pub open spec fn after_remove<T>(m: Set<T>, u: T) -> (Set<T>, bool) {
    (m.remove(u), m.contains(u))
}

/// A set-like object.
///
/// Its state is modelled by `members`, the set of elements it holds. Every
/// operation is stated over that model, on the condition `lawful()`: that the
/// element type's equality, hashing or ordering behave as the container
/// relies on (true of the integer types).
pub trait Setlike<T>: Sized {
    /// The elements currently in the set.
    spec fn members(&self) -> Set<T>;

    /// The element type (and hasher, where there is one) behaves as the
    /// container relies on.
    spec fn lawful() -> bool;

    /// `el` is an element the container can store.
    spec fn storable(el: T) -> bool;

    /// A container sized for `k` elements can be made.
    spec fn sizable(k: usize) -> bool;

    /// `true` if the set contains `el`.
    fn contains(&self, el: &T) -> (r: bool)
        ensures
            Self::lawful() ==> r == self.members().contains(*el),
    ;

    /// Insert the given element.
    ///
    /// Returns `true` if the element was *not* already in the set. If it was,
    /// `false` instead, and the set is unchanged.
    fn insert(&mut self, el: T) -> (r: bool)
        requires
            Self::storable(el),
        ensures
            Self::lawful() ==> (final(self).members(), r) == after_insert(old(self).members(), el),
    ;

    /// Remove the given element.
    ///
    /// Returns `true` if the set contained the element.
    fn remove(&mut self, el: &T) -> (r: bool)
        ensures
            Self::lawful() ==> (final(self).members(), r) == after_remove(old(self).members(), *el),
    ;

    /// The number of elements in the set.
    fn len(&self) -> (r: usize)
        ensures
            Self::lawful() ==> r == self.members().len(),
    ;

    /// Create an empty instance of the setlike with a hint that we will need
    /// room for `k` elements.
    ///
    /// Not all implementations use the hint; those that do not simply create
    /// an empty instance.
    fn with_capacity(k: usize) -> (r: Self)
        requires
            Self::sizable(k),
        ensures
            r.members() == Set::<T>::empty(),
    ;
}

} // verus!
