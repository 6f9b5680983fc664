//! The executable powerset domain.

use vstd::prelude::*;
use vstd::std_specs::cmp::{PartialEqSpec, PartialEqSpecImpl};
use crate::model::Powerset;
use crate::seq_sets::{take_ends_to_set, take_next_to_set};
use crate::set_ops::{SetAbstractDomainOps, SetElementOps, SetFromElements};

verus! {

/// An abstract value of the powerset domain over the set representation `S`:
/// no information yet (`Bottom`), a precise set of elements (`Value`), or
/// every element possible (`Top`).
///
/// A `Value` that wraps an empty set is an ordinary value. It is not
/// `Bottom`.
#[derive(Eq, Debug)]
pub enum PowersetLattice<S: SetAbstractDomainOps> {
    Top,
    Value(S),
    Bottom,
}

impl<S: SetAbstractDomainOps> View for PowersetLattice<S> {
    type V = Powerset<S::Element>;

    /// The lattice point that this value denotes.
    open spec fn view(&self) -> Powerset<S::Element> {
        match self {
            PowersetLattice::Top => Powerset::Top,
            PowersetLattice::Value(s) => Powerset::Value(s.elems()),
            PowersetLattice::Bottom => Powerset::Bottom,
        }
    }
}

impl<S: SetAbstractDomainOps> Clone for PowersetLattice<S> {
    /// A copy in the same state. The set of a value is copied by the set's
    /// own `clone`.
    fn clone(&self) -> (copy: Self)
        ensures
            (match (*self, copy) {
                (PowersetLattice::Top, PowersetLattice::Top) => true,
                (PowersetLattice::Value(s), PowersetLattice::Value(t)) => cloned::<S>(s, t),
                (PowersetLattice::Bottom, PowersetLattice::Bottom) => true,
                _ => false,
            }),
    {
        match self {
            Self::Top => Self::Top,
            Self::Value(s) => Self::Value(s.clone()),
            Self::Bottom => Self::Bottom,
        }
    }
}

impl<S: SetAbstractDomainOps> PartialEq for PowersetLattice<S> {
    /// Two values are equal when they are in the same state and, for two
    /// values, the wrapped sets are equal by the set's own `==`.
    fn eq(&self, other: &Self) -> (equal: bool) {
        match (self, other) {
            (Self::Top, Self::Top) => true,
            (Self::Value(s), Self::Value(t)) => s == t,
            (Self::Bottom, Self::Bottom) => true,
            _ => false,
        }
    }
}

impl<S: SetAbstractDomainOps> PartialEqSpecImpl for PowersetLattice<S> {
    open spec fn obeys_eq_spec() -> bool {
        S::obeys_eq_spec()
    }

    open spec fn eq_spec(&self, other: &Self) -> bool {
        match (self, other) {
            (PowersetLattice::Top, PowersetLattice::Top) => true,
            (PowersetLattice::Value(s), PowersetLattice::Value(t)) => s.eq_spec(t),
            (PowersetLattice::Bottom, PowersetLattice::Bottom) => true,
            _ => false,
        }
    }
}

impl<S: SetAbstractDomainOps> PowersetLattice<S> {
    /// The value that wraps `set`.
    pub fn value_from_set(set: S) -> (value: Self)
        ensures
            value == PowersetLattice::Value(set),
    {
        Self::Value(set)
    }

    /// The least element of the domain.
    pub fn bottom() -> (value: Self)
        ensures
            value == PowersetLattice::<S>::Bottom,
    {
        Self::Bottom
    }

    /// The greatest element of the domain.
    pub fn top() -> (value: Self)
        ensures
            value == PowersetLattice::<S>::Top,
    {
        Self::Top
    }

    /// Whether this is the least element.
    pub fn is_bottom(&self) -> (b: bool)
        ensures
            b == (self is Bottom),
    {
        matches!(self, Self::Bottom)
    }

    /// Whether this is the greatest element.
    pub fn is_top(&self) -> (b: bool)
        ensures
            b == (self is Top),
    {
        matches!(self, Self::Top)
    }

    /// Whether `self` is at most `rhs` in the order of the lattice.
    pub fn leq(&self, rhs: &Self) -> (b: bool)
        ensures
            b == self@.leq(rhs@),
    {
        match self {
            Self::Top => rhs.is_top(),
            Self::Value(s) => match rhs {
                Self::Top => true,
                Self::Value(t) => s.is_subset(t),
                Self::Bottom => false,
            },
            Self::Bottom => true,
        }
    }

    /// Replaces `self` by the least upper bound of `self` and `rhs`.
    ///
    /// Two values are joined by the union of their sets. In every other case
    /// the result is one of the two operands, unchanged.
    pub fn join_with(&mut self, rhs: Self)
        ensures
            final(self)@ == old(self)@.join(rhs@),
            *old(self) is Top || rhs is Top ==> *final(self) == PowersetLattice::<S>::Top,
            rhs is Bottom ==> *final(self) == *old(self),
            *old(self) is Bottom ==> *final(self) == rhs,
    {
        match self {
            Self::Top => {},
            Self::Value(s) => match rhs {
                Self::Top => *self = rhs,
                Self::Value(t) => {
                    s.union_with(t);
                },
                Self::Bottom => {},
            },
            Self::Bottom => *self = rhs,
        };
    }

    /// Replaces `self` by the greatest lower bound of `self` and `rhs`.
    ///
    /// Two values are met by the intersection of their sets. In every other
    /// case the result is one of the two operands, unchanged.
    pub fn meet_with(&mut self, rhs: Self)
        ensures
            final(self)@ == old(self)@.meet(rhs@),
            *old(self) is Bottom || rhs is Bottom ==> *final(self) == PowersetLattice::<S>::Bottom,
            rhs is Top ==> *final(self) == *old(self),
            *old(self) is Top ==> *final(self) == rhs,
    {
        match self {
            Self::Top => *self = rhs,
            Self::Value(s) => match rhs {
                Self::Top => {},
                Self::Value(ref t) => {
                    s.intersection_with(t);
                },
                Self::Bottom => *self = rhs,
            },
            Self::Bottom => {},
        };
    }

    /// Widens `self`: the result is the greatest element, whatever `self`
    /// and the other operand are.
    pub fn widen_with(&mut self, _rhs: Self)
        ensures
            *final(self) == PowersetLattice::<S>::Top,
    {
        *self = Self::top();
    }

    /// Narrows `self`: the result is the least element, whatever `self` and
    /// the other operand are.
    pub fn narrow_with(&mut self, _rhs: Self)
        ensures
            *final(self) == PowersetLattice::<S>::Bottom,
    {
        *self = Self::bottom();
    }
}

/// Adds each of `elements` to `set`, first to last.
fn add_all<S: SetElementOps>(set: &mut S, elements: Vec<S::Element>)
    ensures
        final(set).elems() == old(set).elems().union(elements@.to_set()),
{
    let ghost items = elements@;
    proof {
        take_ends_to_set(items);
    }
    for e in it: elements
        invariant
            it.seq() == items,
            set.elems() == old(set).elems().union(items.take(it.index()).to_set()),
    {
        proof {
            take_next_to_set(items, it.index());
        }
        set.add_element(e);
    }
}

/// Removes each of `elements` from `set`, first to last.
fn remove_all<S: SetElementOps>(set: &mut S, elements: &[S::Element])
    ensures
        final(set).elems() == old(set).elems().difference(elements@.to_set()),
{
    proof {
        take_ends_to_set(elements@);
    }
    let mut done: usize = 0;
    while done < elements.len()
        invariant
            done <= elements.len(),
            set.elems() == old(set).elems().difference(elements@.take(done as int).to_set()),
        decreases elements.len() - done,
    {
        proof {
            take_next_to_set(elements@, done as int);
        }
        set.remove_element(&elements[done]);
        done += 1;
    }
}

impl<S: SetAbstractDomainOps + SetElementOps> PowersetLattice<S> {
    /// Adds `e` to the set of a value. `Top` and `Bottom` are left as they
    /// are.
    pub fn add_element(&mut self, e: S::Element)
        ensures
            final(self)@ == old(self)@.with_element(e),
            !(*old(self) is Value) ==> *final(self) == *old(self),
    {
        if let Self::Value(powerset) = self {
            powerset.add_element(e);
        }
    }

    /// Adds each of `elements` to the set of a value. `Top` and `Bottom` are
    /// left as they are.
    pub fn add_elements(&mut self, elements: Vec<S::Element>)
        ensures
            final(self)@ == old(self)@.with_elements(elements@.to_set()),
            !(*old(self) is Value) ==> *final(self) == *old(self),
    {
        if let Self::Value(powerset) = self {
            add_all(powerset, elements);
        }
    }

    /// Removes `e` from the set of a value. `Top` and `Bottom` are left as
    /// they are.
    pub fn remove_element(&mut self, e: &S::Element)
        ensures
            final(self)@ == old(self)@.without_element(*e),
            !(*old(self) is Value) ==> *final(self) == *old(self),
    {
        if let Self::Value(powerset) = self {
            powerset.remove_element(e);
        }
    }

    /// Removes each of `elements` from the set of a value. `Top` and `Bottom`
    /// are left as they are.
    pub fn remove_elements(&mut self, elements: &[S::Element])
        ensures
            final(self)@ == old(self)@.without_elements(elements@.to_set()),
            !(*old(self) is Value) ==> *final(self) == *old(self),
    {
        if let Self::Value(powerset) = self {
            remove_all(powerset, elements);
        }
    }

    /// The elements of the set of a value, each of them once. `Top` and
    /// `Bottom` list no element.
    pub fn elements(&self) -> (listed: Vec<&S::Element>)
        ensures
            listed@.unref().no_duplicates(),
            listed@.unref().to_set() == self@.members(),
            !(self is Value) ==> listed@.len() == 0,
    {
        match self {
            Self::Value(powerset) => powerset.elements(),
            _ => Vec::new(),
        }
    }

    /// The set that a value wraps. Only a value wraps a set: on `Top` and
    /// `Bottom` there is nothing to give, so the caller looks at the state
    /// first.
    pub fn set(&self) -> (wrapped: &S)
        requires
            self is Value,
        ensures
            *wrapped == self->Value_0,
    {
        match self {
            Self::Value(powerset) => powerset,
            _ => unreached(),
        }
    }

    /// The set that a value wraps, by value. As for `set`, the caller looks
    /// at the state first.
    pub fn into_set(self) -> (wrapped: S)
        requires
            self is Value,
        ensures
            wrapped == self->Value_0,
    {
        match self {
            Self::Value(powerset) => powerset,
            _ => unreached(),
        }
    }
}

impl<S: SetAbstractDomainOps + SetFromElements> PowersetLattice<S> {
    /// The value whose set holds the elements that occur in `elements`. The
    /// result is a value even when `elements` is empty.
    pub fn from_iter(elements: Vec<S::Element>) -> (value: Self)
        ensures
            value@ == Powerset::Value(elements@.to_set()),
    {
        Self::value_from_set(S::from_elements(elements))
    }
}

} // verus!
