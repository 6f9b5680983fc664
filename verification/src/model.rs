//! The mathematical powerset lattice that the executable domain is specified
//! against.

use vstd::prelude::*;

verus! {

/// A point of the powerset lattice over elements of type `E`.
///
/// `Value(s)` is the precise set `s`. `Bottom` lies strictly below every
/// value, the empty set included, and `Top` strictly above every value.
#[verifier::reject_recursive_types(E)]
pub ghost enum Powerset<E> {
    Top,
    Value(Set<E>),
    Bottom,
}

impl<E> Powerset<E> {
    /// The partial order: `self` is at most `rhs`.
    pub open spec fn leq(self, rhs: Self) -> bool {
        match (self, rhs) {
            (Powerset::Bottom, _) => true,
            (_, Powerset::Top) => true,
            (Powerset::Value(s), Powerset::Value(t)) => s.subset_of(t),
            _ => false,
        }
    }

    /// The least upper bound of `self` and `rhs`.
    pub open spec fn join(self, rhs: Self) -> Self {
        match (self, rhs) {
            (Powerset::Top, _) => Powerset::Top,
            (_, Powerset::Top) => Powerset::Top,
            (Powerset::Bottom, _) => rhs,
            (_, Powerset::Bottom) => self,
            (Powerset::Value(s), Powerset::Value(t)) => Powerset::Value(s.union(t)),
        }
    }

    /// The greatest lower bound of `self` and `rhs`.
    pub open spec fn meet(self, rhs: Self) -> Self {
        match (self, rhs) {
            (Powerset::Bottom, _) => Powerset::Bottom,
            (_, Powerset::Bottom) => Powerset::Bottom,
            (Powerset::Top, _) => rhs,
            (_, Powerset::Top) => self,
            (Powerset::Value(s), Powerset::Value(t)) => Powerset::Value(s.intersect(t)),
        }
    }

    /// The elements that can be listed: those of the set of a value, and none
    /// for `Top` and `Bottom`.
    pub open spec fn members(self) -> Set<E> {
        match self {
            Powerset::Value(s) => s,
            _ => Set::empty(),
        }
    }

    /// The point with the elements of `added` put into the set of a value.
    /// `Top` and `Bottom` stay as they are.
    pub open spec fn with_elements(self, added: Set<E>) -> Self {
        match self {
            Powerset::Value(s) => Powerset::Value(s.union(added)),
            _ => self,
        }
    }

    /// The point with the elements of `removed` taken out of the set of a
    /// value. `Top` and `Bottom` stay as they are.
    pub open spec fn without_elements(self, removed: Set<E>) -> Self {
        match self {
            Powerset::Value(s) => Powerset::Value(s.difference(removed)),
            _ => self,
        }
    }

    /// The point with `e` put into the set of a value.
    pub open spec fn with_element(self, e: E) -> Self {
        match self {
            Powerset::Value(s) => Powerset::Value(s.insert(e)),
            _ => self,
        }
    }

    /// The point with `e` taken out of the set of a value.
    pub open spec fn without_element(self, e: E) -> Self {
        match self {
            Powerset::Value(s) => Powerset::Value(s.remove(e)),
            _ => self,
        }
    }
}

} // verus!
