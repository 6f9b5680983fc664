//! The domain over the hash sets of the standard library.

use std::collections::HashSet;
use std::hash::Hash;
use vstd::prelude::*;
use vstd::std_specs::hash::obeys_key_model;
use vstd::std_specs::iter::IteratorSpec;
use crate::powerset::PowersetLattice;
use crate::seq_sets::{take_ends_to_set, take_next_to_set};
use crate::set_ops::{SetAbstractDomainOps, SetElementOps, SetFromElements};

verus! {

/// The powerset domain whose values wrap a hash set.
pub type HashSetAbstractDomain<T> = PowersetLattice<HashSet<T>>;

/// The element types over which a hash set behaves as a mathematical set:
/// hashing is deterministic and two keys are equal exactly when they are
/// identical. Keys are copied from one set into another, so a key type is
/// `Copy`.
pub trait HashKey: Copy + Eq + Hash {
    /// The key type obeys the model that hash sets are specified against.
    proof fn key_model()
        ensures
            obeys_key_model::<Self>(),
    ;
}

impl HashKey for bool {
    proof fn key_model() {
    }
}

impl HashKey for u8 {
    proof fn key_model() {
    }
}

impl HashKey for u16 {
    proof fn key_model() {
    }
}

impl HashKey for u32 {
    proof fn key_model() {
    }
}

impl HashKey for u64 {
    proof fn key_model() {
    }
}

impl HashKey for u128 {
    proof fn key_model() {
    }
}

impl HashKey for usize {
    proof fn key_model() {
    }
}

impl HashKey for i8 {
    proof fn key_model() {
    }
}

impl HashKey for i16 {
    proof fn key_model() {
    }
}

impl HashKey for i32 {
    proof fn key_model() {
    }
}

impl HashKey for i64 {
    proof fn key_model() {
    }
}

impl HashKey for i128 {
    proof fn key_model() {
    }
}

impl HashKey for isize {
    proof fn key_model() {
    }
}

impl<T: HashKey> SetAbstractDomainOps for HashSet<T> {
    type Element = T;

    open spec fn elems(&self) -> Set<T> {
        self@
    }

    /// Looks each element of `self` up in `other`.
    fn is_subset(&self, other: &Self) -> (included: bool) {
        proof {
            T::key_model();
        }
        let ghost order = self.iter().remaining().unref();
        for x in it: self.iter()
            invariant
                obeys_key_model::<T>(),
                it.seq().unref() == order,
                order.to_set() == self@,
                forall|i: int| 0 <= i < it.index() ==> other@.contains(#[trigger] order[i]),
        {
            if !other.contains(x) {
                assert(order[it.index()] == *x);
                assert(self@.contains(*x));
                return false;
            }
        }
        assert forall|e: T| self@.contains(e) implies other@.contains(e) by {
            let i = choose|i: int| 0 <= i < order.len() && order[i] == e;
            assert(other@.contains(order[i]));
        }
        true
    }

    /// Collects the elements of `self` that `other` holds, and keeps those.
    fn intersection_with(&mut self, other: &Self) {
        proof {
            T::key_model();
        }
        let ghost order = self.iter().remaining().unref();
        proof {
            take_ends_to_set(order);
        }
        let mut kept: HashSet<T> = HashSet::new();
        for x in it: self.iter()
            invariant
                obeys_key_model::<T>(),
                it.seq().unref() == order,
                order.to_set() == self@,
                kept@ == order.take(it.index()).to_set().intersect(other@),
        {
            proof {
                take_next_to_set(order, it.index());
            }
            if other.contains(x) {
                kept.insert(*x);
            }
        }
        *self = kept;
    }

    /// Inserts each element of `other` into `self`.
    fn union_with(&mut self, other: Self) {
        proof {
            T::key_model();
        }
        let ghost order = other.iter().remaining().unref();
        proof {
            take_ends_to_set(order);
        }
        for x in it: other.iter()
            invariant
                obeys_key_model::<T>(),
                it.seq().unref() == order,
                order.to_set() == other@,
                self@ == old(self)@.union(order.take(it.index()).to_set()),
        {
            proof {
                take_next_to_set(order, it.index());
            }
            self.insert(*x);
        }
    }
}

impl<T: HashKey> SetElementOps for HashSet<T> {
    fn add_element(&mut self, e: T) {
        proof {
            T::key_model();
        }
        self.insert(e);
    }

    fn remove_element(&mut self, e: &T) {
        proof {
            T::key_model();
        }
        self.remove(e);
    }

    /// The elements in the order in which the hash set walks them.
    fn elements(&self) -> (listed: Vec<&T>) {
        proof {
            T::key_model();
        }
        let ghost order = self.iter().remaining();
        let mut listed: Vec<&T> = Vec::new();
        for x in it: self.iter()
            invariant
                it.seq() == order,
                listed@ == order.take(it.index()),
        {
            listed.push(x);
        }
        assert(listed@ =~= order);
        listed
    }
}

impl<T: HashKey> SetFromElements for HashSet<T> {
    /// Inserts each of `items` into an empty hash set.
    fn from_elements(items: Vec<T>) -> (set: Self) {
        proof {
            T::key_model();
            take_ends_to_set(items@);
        }
        let ghost given = items@;
        let mut set: HashSet<T> = HashSet::new();
        for e in it: items
            invariant
                obeys_key_model::<T>(),
                it.seq() == given,
                set@ == given.take(it.index()).to_set(),
        {
            proof {
                take_next_to_set(given, it.index());
            }
            set.insert(e);
        }
        set
    }
}

} // verus!
