//! A small interface for set-like containers, with implementations over the
//! standard library's hash and ordered sets, `bit_set::BitSet` and
//! `hashbrown::HashSet`. Each implementation is proved against one model: the
//! set of elements the container holds.

mod bits;
mod hashbrown_set;
pub mod laws;
mod setlike;
mod std_sets;

pub use bits::{bit_members, BitSet};
pub use hashbrown_set::HashBrownSet;
pub use setlike::{after_insert, after_remove, Setlike};
pub use std_sets::hash_table_fits;
