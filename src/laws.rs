use vstd::prelude::*;

use crate::setlike::{after_insert, after_remove};

verus! {

/// After `insert(u)`, `contains(u)` is `true`.
pub proof fn lemma_contains_after_insert<T>(m: Set<T>, u: T)
    ensures
        after_insert(m, u).0.contains(u),
{
}

/// `insert(u)` followed by `remove(u)` leaves `u` absent. That `remove`
/// returns `true`; a second `remove(u)` returns `false` and changes nothing.
pub proof fn lemma_remove_after_insert<T>(m: Set<T>, u: T)
    ensures
        ({
            let m1 = after_insert(m, u).0;
            let (m2, first) = after_remove(m1, u);
            let (m3, second) = after_remove(m2, u);
            &&& !m2.contains(u)
            &&& first
            &&& !second
            &&& m3 == m2
        }),
{
    let m1 = after_insert(m, u).0;
    let m2 = after_remove(m1, u).0;
    assert(after_remove(m2, u).0 =~= m2);
}

/// A second `insert(u)` of an element already present returns `false` and
/// changes neither the elements nor their number.
pub proof fn lemma_insert_twice<T>(m: Set<T>, u: T)
    ensures
        ({
            let m1 = after_insert(m, u).0;
            let (m2, second) = after_insert(m1, u);
            &&& !second
            &&& m2 == m1
            &&& m2.len() == m1.len()
        }),
{
    let m1 = after_insert(m, u).0;
    assert(after_insert(m1, u).0 =~= m1);
}

/// After an `insert(u)` that returns `true`, the number of elements is the
/// number before plus one. A container holds finitely many elements: the
/// empty set it starts from is finite, and insert and remove keep it so.
pub proof fn lemma_len_after_new_insert<T>(m: Set<T>, u: T)
    requires
        m.finite(),
    ensures
        after_insert(m, u).1 ==> after_insert(m, u).0.len() == m.len() + 1,
        after_insert(m, u).0.finite(),
        after_remove(m, u).0.finite(),
{
}

} // verus!
