//! The capabilities that a concrete set representation offers to the domain.

use vstd::prelude::*;

verus! {

/// The set operations that the lattice is built from. Every implementation
/// denotes a mathematical set of elements, and each operation is specified by
/// its effect on that set.
pub trait SetAbstractDomainOps: Clone + Eq {
    /// The type of the elements of the set.
    type Element;

    /// The mathematical set that this value denotes.
    spec fn elems(&self) -> Set<Self::Element>;

    /// Whether every element of `self` is an element of `other`.
    fn is_subset(&self, other: &Self) -> (included: bool)
        ensures
            included == self.elems().subset_of(other.elems()),
    ;

    /// Keeps in `self` the elements that `other` holds too.
    fn intersection_with(&mut self, other: &Self)
        ensures
            final(self).elems() == old(self).elems().intersect(other.elems()),
    ;

    /// Adds every element of `other` to `self`.
    fn union_with(&mut self, other: Self)
        ensures
            final(self).elems() == old(self).elems().union(other.elems()),
    ;
}

/// Element-wise access to a set: adding and removing single elements and
/// listing the elements that the set holds.
pub trait SetElementOps: SetAbstractDomainOps {
    /// Adds `e` to the set.
    fn add_element(&mut self, e: Self::Element)
        ensures
            final(self).elems() == old(self).elems().insert(e),
    ;

    /// Removes `e` from the set.
    fn remove_element(&mut self, e: &Self::Element)
        ensures
            final(self).elems() == old(self).elems().remove(*e),
    ;

    /// The elements of the set, each of them once, in no particular order.
    fn elements(&self) -> (listed: Vec<&Self::Element>)
        ensures
            listed@.unref().no_duplicates(),
            listed@.unref().to_set() == self.elems(),
    ;
}

/// Building a set from a sequence of elements.
pub trait SetFromElements: SetAbstractDomainOps {
    /// The set of the elements that occur in `items`.
    fn from_elements(items: Vec<Self::Element>) -> (set: Self)
        ensures
            set.elems() == items@.to_set(),
    ;
}

} // verus!
