//! What the ordered map and set hold.
//!
//! Each answers through the standard library's own lookup, so the answer is the modelled
//! one when the key's ordering behaves as its model says.
use crate::matcher::containment::Holds;
use std::collections::{BTreeMap, BTreeSet};
use vstd::laws_cmp::obeys_cmp;
use vstd::prelude::*;
use vstd::std_specs::btree::{contains_borrowed_key, set_contains_borrowed_key};

verus! {

impl<K: Ord, V> Holds<K> for BTreeMap<K, V> {
    open spec fn holds_spec(&self, needle: &K) -> bool {
        contains_borrowed_key(self@, needle)
    }

    open spec fn modelled(&self) -> bool {
        obeys_cmp::<K>()
    }

    fn holds(&self, needle: &K) -> (held: bool) {
        self.get(needle).is_some()
    }
}

impl<T: Ord> Holds<T> for BTreeSet<T> {
    open spec fn holds_spec(&self, needle: &T) -> bool {
        set_contains_borrowed_key(self@, needle)
    }

    open spec fn modelled(&self) -> bool {
        obeys_cmp::<T>()
    }

    fn holds(&self, needle: &T) -> (held: bool) {
        self.contains(needle)
    }
}

} // verus!
