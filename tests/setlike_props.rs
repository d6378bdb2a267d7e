use std::collections::{BTreeSet, HashSet};

use setlike::{BitSet, HashBrownSet, Setlike};

fn contains_after_insert<S: Setlike<usize>>(mut s: S, u: usize) -> bool {
    s.insert(u);
    s.contains(&u)
}

fn not_contains_after_remove<S: Setlike<usize>>(mut s: S, u: usize) -> bool {
    s.insert(u);
    let contained = s.contains(&u);
    s.remove(&u);
    contained && !s.contains(&u)
}

fn insert_twice<S: Setlike<usize>>(mut s: S, u: usize) -> bool {
    s.insert(u);
    let l = s.len();
    !s.insert(u) && s.len() == l
}

fn remove_twice<S: Setlike<usize>>(mut s: S, u: usize) -> bool {
    s.insert(u);
    s.remove(&u) && !s.remove(&u)
}

fn len_increments<S: Setlike<usize>>(mut s: S, u: usize) -> bool {
    let l = s.len();
    // either u is already in s, or s has its length increased
    !s.insert(u) || s.len() == l + 1
}

fn check_all<S: Setlike<usize>, F: Fn() -> S>(make: F, u: usize) {
    assert!(contains_after_insert(make(), u));
    assert!(not_contains_after_remove(make(), u));
    assert!(insert_twice(make(), u));
    assert!(remove_twice(make(), u));
    assert!(len_increments(make(), u));
}

fn seeded<S: Setlike<usize>>(items: &[usize]) -> S {
    let mut s = S::with_capacity(items.len());
    for &i in items {
        s.insert(i);
    }
    s
}

#[test]
fn hash_set_properties_random() {
    fn contains(s: HashSet<usize>, u: usize) -> bool {
        contains_after_insert(s, u)
    }
    fn removed(s: HashSet<usize>, u: usize) -> bool {
        not_contains_after_remove(s, u)
    }
    fn twice(s: HashSet<usize>, u: usize) -> bool {
        insert_twice(s, u)
    }
    fn remove2(s: HashSet<usize>, u: usize) -> bool {
        remove_twice(s, u)
    }
    fn grows(s: HashSet<usize>, u: usize) -> bool {
        len_increments(s, u)
    }
    quickcheck::quickcheck(contains as fn(HashSet<usize>, usize) -> bool);
    quickcheck::quickcheck(removed as fn(HashSet<usize>, usize) -> bool);
    quickcheck::quickcheck(twice as fn(HashSet<usize>, usize) -> bool);
    quickcheck::quickcheck(remove2 as fn(HashSet<usize>, usize) -> bool);
    quickcheck::quickcheck(grows as fn(HashSet<usize>, usize) -> bool);
}

#[test]
fn btree_set_properties_random() {
    fn contains(s: BTreeSet<usize>, u: usize) -> bool {
        contains_after_insert(s, u)
    }
    fn removed(s: BTreeSet<usize>, u: usize) -> bool {
        not_contains_after_remove(s, u)
    }
    fn twice(s: BTreeSet<usize>, u: usize) -> bool {
        insert_twice(s, u)
    }
    fn remove2(s: BTreeSet<usize>, u: usize) -> bool {
        remove_twice(s, u)
    }
    fn grows(s: BTreeSet<usize>, u: usize) -> bool {
        len_increments(s, u)
    }
    quickcheck::quickcheck(contains as fn(BTreeSet<usize>, usize) -> bool);
    quickcheck::quickcheck(removed as fn(BTreeSet<usize>, usize) -> bool);
    quickcheck::quickcheck(twice as fn(BTreeSet<usize>, usize) -> bool);
    quickcheck::quickcheck(remove2 as fn(BTreeSet<usize>, usize) -> bool);
    quickcheck::quickcheck(grows as fn(BTreeSet<usize>, usize) -> bool);
}

#[test]
fn properties_on_every_container() {
    let items = [0usize, 3, 17, 64, 1000];
    for u in [0usize, 3, 5, 63, 64, 65, 999, 4096] {
        check_all(|| seeded::<HashSet<usize>>(&items), u);
        check_all(|| seeded::<BTreeSet<usize>>(&items), u);
        check_all(|| seeded::<BitSet>(&items), u);
        check_all(|| seeded::<HashBrownSet>(&items), u);
    }
}

#[test]
fn len_counts_distinct_elements() {
    let items = [4usize, 4, 9, 1, 9, 4];
    assert_eq!(seeded::<HashSet<usize>>(&items).len(), 3);
    assert_eq!(Setlike::len(&seeded::<BTreeSet<usize>>(&items)), 3);
    assert_eq!(seeded::<BitSet>(&items).len(), 3);
    assert_eq!(seeded::<HashBrownSet>(&items).len(), 3);
}
