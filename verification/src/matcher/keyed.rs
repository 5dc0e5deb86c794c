//! How much the standard library's other containers hold, and what they hold.
//!
//! A deque holds elements as a sequence does; a map holds keys, and a set its members.
//! Each answers through the standard library's own lookup, so the answer is the modelled
//! one when the key's hashing or ordering behaves as its model says.
use crate::matcher::containment::{seq_holds, Holds};
use crate::matcher::sizes::Container;
use std::collections::{BTreeMap, BTreeSet, HashMap, HashSet, VecDeque};
use std::hash::{BuildHasher, Hash};
use vstd::prelude::*;
use vstd::std_specs::btree::{spec_btree_map_len, spec_btree_set_len};
use vstd::std_specs::cmp::PartialEqSpec;
use vstd::std_specs::hash::{
    builds_valid_hashers, contains_borrowed_key, obeys_key_model, set_contains_borrowed_key,
    spec_hash_map_len, spec_hash_set_len,
};

verus! {

impl<T> Container for VecDeque<T> {
    open spec fn size_spec(&self) -> nat {
        self@.len()
    }

    fn size(&self) -> (n: usize) {
        self.len()
    }
}

impl<K, V, S: BuildHasher> Container for HashMap<K, V, S> {
    open spec fn size_spec(&self) -> nat {
        spec_hash_map_len(self) as nat
    }

    fn size(&self) -> (n: usize) {
        self.len()
    }
}

impl<T, S: BuildHasher> Container for HashSet<T, S> {
    open spec fn size_spec(&self) -> nat {
        spec_hash_set_len(self) as nat
    }

    fn size(&self) -> (n: usize) {
        self.len()
    }
}

impl<K, V> Container for BTreeMap<K, V> {
    open spec fn size_spec(&self) -> nat {
        spec_btree_map_len(self) as nat
    }

    fn size(&self) -> (n: usize) {
        self.len()
    }
}

impl<T> Container for BTreeSet<T> {
    open spec fn size_spec(&self) -> nat {
        spec_btree_set_len(self) as nat
    }

    fn size(&self) -> (n: usize) {
        self.len()
    }
}

impl<T: Container + ?Sized> Container for &T {
    open spec fn size_spec(&self) -> nat {
        (**self).size_spec()
    }

    fn size(&self) -> (n: usize) {
        (**self).size()
    }
}

impl<T: PartialEq> Holds<T> for VecDeque<T> {
    open spec fn holds_spec(&self, needle: &T) -> bool {
        seq_holds(self@, needle)
    }

    open spec fn modelled(&self) -> bool {
        T::obeys_eq_spec()
    }

    fn holds(&self, needle: &T) -> (held: bool) {
        let mut at: usize = 0;
        while at < self.len()
            invariant
                at <= self@.len(),
                T::obeys_eq_spec() ==> forall|j: int| 0 <= j < at ==> !self@[j].eq_spec(needle),
            decreases self@.len() - at,
        {
            if self[at] == *needle {
                return true;
            }
            at += 1;
        }
        false
    }
}

impl<K: Eq + Hash, V, S: BuildHasher> Holds<K> for HashMap<K, V, S> {
    open spec fn holds_spec(&self, needle: &K) -> bool {
        contains_borrowed_key(self@, needle)
    }

    open spec fn modelled(&self) -> bool {
        obeys_key_model::<K>() && builds_valid_hashers::<S>()
    }

    fn holds(&self, needle: &K) -> (held: bool) {
        self.get(needle).is_some()
    }
}

impl<T: Eq + Hash, S: BuildHasher> Holds<T> for HashSet<T, S> {
    open spec fn holds_spec(&self, needle: &T) -> bool {
        set_contains_borrowed_key(self@, needle)
    }

    open spec fn modelled(&self) -> bool {
        obeys_key_model::<T>() && builds_valid_hashers::<S>()
    }

    fn holds(&self, needle: &T) -> (held: bool) {
        self.contains(needle)
    }
}

impl<N: ?Sized, T: Holds<N> + ?Sized> Holds<N> for &T {
    open spec fn holds_spec(&self, needle: &N) -> bool {
        (**self).holds_spec(needle)
    }

    open spec fn modelled(&self) -> bool {
        (**self).modelled()
    }

    fn holds(&self, needle: &N) -> (held: bool) {
        (**self).holds(needle)
    }
}

} // verus!
