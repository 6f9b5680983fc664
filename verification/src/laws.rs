//! The algebra of the powerset lattice. Every operation of the executable
//! domain is specified by the lattice point that it produces, so these laws
//! hold of the executable operations as well.

use vstd::prelude::*;
use vstd::std_specs::cmp::PartialEqSpec;
use crate::model::Powerset;
use crate::powerset::PowersetLattice;
use crate::set_ops::SetAbstractDomainOps;

verus! {

/// On two values the order is inclusion, join is union and meet is
/// intersection.
pub proof fn values_follow_their_sets<E>(s: Set<E>, t: Set<E>)
    ensures
        Powerset::Value(s).leq(Powerset::Value(t)) == s.subset_of(t),
        Powerset::Value(s).join(Powerset::Value(t)) == Powerset::Value(s.union(t)),
        Powerset::Value(s).meet(Powerset::Value(t)) == Powerset::Value(s.intersect(t)),
{
}

/// The order is reflexive: every point is at most itself.
pub proof fn leq_reflexive<E>(x: Powerset<E>)
    ensures
        x.leq(x),
{
}

/// The order is antisymmetric: two points that are at most each other are the
/// same point. Two values are the same point when their sets hold the same
/// elements.
pub proof fn leq_antisymmetric<E>(x: Powerset<E>, y: Powerset<E>)
    requires
        x.leq(y),
        y.leq(x),
    ensures
        x == y,
{
    if let (Powerset::Value(s), Powerset::Value(t)) = (x, y) {
        assert(s =~= t);
    }
}

/// Where `==` on the sets is equality of their elements, `==` on the domain
/// is equality of lattice points, so that two domain values that are at most
/// each other are equal by `==`.
pub proof fn leq_antisymmetric_by_eq<S: SetAbstractDomainOps>(
    x: PowersetLattice<S>,
    y: PowersetLattice<S>,
)
    requires
        forall|s: S, t: S| #[trigger] s.eq_spec(&t) <==> s.elems() == t.elems(),
    ensures
        x.eq_spec(&y) <==> x@ == y@,
        x@.leq(y@) && y@.leq(x@) ==> x.eq_spec(&y),
{
    if x@.leq(y@) && y@.leq(x@) {
        leq_antisymmetric(x@, y@);
    }
}

/// The order is transitive.
pub proof fn leq_transitive<E>(x: Powerset<E>, y: Powerset<E>, z: Powerset<E>)
    requires
        x.leq(y),
        y.leq(z),
    ensures
        x.leq(z),
{
}

/// `Bottom` is at most every point, and every point is at most `Top`.
pub proof fn leq_bounds<E>(x: Powerset<E>)
    ensures
        Powerset::<E>::Bottom.leq(x),
        x.leq(Powerset::Top),
{
}

/// `Bottom` lies strictly below every value and `Top` strictly above, the
/// value of the empty set included.
pub proof fn value_strictly_between<E>(s: Set<E>)
    ensures
        !Powerset::Value(s).leq(Powerset::Bottom),
        !Powerset::<E>::Top.leq(Powerset::Value(s)),
        Powerset::Value(s) != Powerset::<E>::Bottom,
        Powerset::Value(s) != Powerset::<E>::Top,
{
}

/// `Bottom` is the identity of join and `Top` absorbs it.
pub proof fn join_identity_and_absorption<E>(x: Powerset<E>)
    ensures
        x.join(Powerset::Bottom) == x,
        Powerset::<E>::Bottom.join(x) == x,
        x.join(Powerset::Top) == Powerset::<E>::Top,
        Powerset::<E>::Top.join(x) == Powerset::<E>::Top,
{
}

/// `Top` is the identity of meet and `Bottom` absorbs it.
pub proof fn meet_identity_and_absorption<E>(x: Powerset<E>)
    ensures
        x.meet(Powerset::Top) == x,
        Powerset::<E>::Top.meet(x) == x,
        x.meet(Powerset::Bottom) == Powerset::<E>::Bottom,
        Powerset::<E>::Bottom.meet(x) == Powerset::<E>::Bottom,
{
}

/// Join and meet are idempotent.
pub proof fn join_meet_idempotent<E>(x: Powerset<E>)
    ensures
        x.join(x) == x,
        x.meet(x) == x,
{
    if let Powerset::Value(s) = x {
        assert(s.union(s) =~= s);
        assert(s.intersect(s) =~= s);
    }
}

/// Join and meet are commutative. On two values this is the commutativity
/// of union and of intersection.
pub proof fn join_meet_commutative<E>(x: Powerset<E>, y: Powerset<E>)
    ensures
        x.join(y) == y.join(x),
        x.meet(y) == y.meet(x),
{
    if let (Powerset::Value(s), Powerset::Value(t)) = (x, y) {
        assert(s.union(t) =~= t.union(s));
        assert(s.intersect(t) =~= t.intersect(s));
    }
}

/// Join and meet are associative. On three values this is the associativity
/// of union and of intersection.
pub proof fn join_meet_associative<E>(x: Powerset<E>, y: Powerset<E>, z: Powerset<E>)
    ensures
        x.join(y).join(z) == x.join(y.join(z)),
        x.meet(y).meet(z) == x.meet(y.meet(z)),
{
    if let (Powerset::Value(s), Powerset::Value(t), Powerset::Value(u)) = (x, y, z) {
        assert(s.union(t).union(u) =~= s.union(t.union(u)));
        assert(s.intersect(t).intersect(u) =~= s.intersect(t.intersect(u)));
    }
}

/// Each of join and meet absorbs the other.
pub proof fn join_meet_absorb_each_other<E>(x: Powerset<E>, y: Powerset<E>)
    ensures
        x.join(x.meet(y)) == x,
        x.meet(x.join(y)) == x,
{
    join_meet_idempotent(x);
    if let (Powerset::Value(s), Powerset::Value(t)) = (x, y) {
        assert(s.union(s.intersect(t)) =~= s);
        assert(s.intersect(s.union(t)) =~= s);
    }
}

/// The join of two points is their least upper bound: it is above both, and
/// below every point that is above both.
pub proof fn join_least_upper_bound<E>(x: Powerset<E>, y: Powerset<E>, z: Powerset<E>)
    ensures
        x.leq(x.join(y)),
        y.leq(x.join(y)),
        x.leq(z) && y.leq(z) ==> x.join(y).leq(z),
{
}

/// The meet of two points is their greatest lower bound: it is below both,
/// and above every point that is below both.
pub proof fn meet_greatest_lower_bound<E>(x: Powerset<E>, y: Powerset<E>, z: Powerset<E>)
    ensures
        x.meet(y).leq(x),
        x.meet(y).leq(y),
        z.leq(x) && z.leq(y) ==> z.leq(x.meet(y)),
{
}

/// The order agrees with join and with meet: `x` is at most `y` exactly when
/// their join is `y`, and exactly when their meet is `x`.
pub proof fn leq_by_join_and_meet<E>(x: Powerset<E>, y: Powerset<E>)
    ensures
        x.leq(y) <==> x.join(y) == y,
        x.leq(y) <==> x.meet(y) == x,
{
    if let (Powerset::Value(s), Powerset::Value(t)) = (x, y) {
        if s.subset_of(t) {
            assert(s.union(t) =~= t);
            assert(s.intersect(t) =~= s);
        }
        if s.union(t) == t {
            assert(s.subset_of(t));
        }
        if s.intersect(t) == s {
            assert(s.subset_of(t));
        }
    }
}

/// An element that was added to a value is among the elements that the value
/// lists, and one that was removed is not. Adding to `Top` or `Bottom`, or
/// removing from them, changes nothing, and they list no element.
pub proof fn element_round_trip<E>(x: Powerset<E>, e: E)
    ensures
        x is Value ==> x.with_element(e).members().contains(e),
        x is Value ==> !x.without_element(e).members().contains(e),
        !(x is Value) ==> x.with_element(e) == x && x.without_element(e) == x,
        !(x is Value) ==> x.members() == Set::<E>::empty(),
{
}

/// The value that is collected from a sequence of elements lists exactly the
/// elements that occur in the sequence.
pub proof fn collected_elements_are_listed<E>(items: Seq<E>, e: E)
    ensures
        Powerset::Value(items.to_set()).members() == items.to_set(),
        Powerset::Value(items.to_set()).members().contains(e) <==> items.contains(e),
{
}

/// Adding or removing a set of elements is adding or removing them one by
/// one, and adding or removing none changes nothing.
pub proof fn elements_one_by_one<E>(x: Powerset<E>, some: Set<E>, e: E)
    ensures
        x.with_elements(some.insert(e)) == x.with_elements(some).with_element(e),
        x.without_elements(some.insert(e)) == x.without_elements(some).without_element(e),
        x.with_elements(Set::empty()) == x,
        x.without_elements(Set::empty()) == x,
{
    if let Powerset::Value(s) = x {
        assert(s.union(some.insert(e)) =~= s.union(some).insert(e));
        assert(s.difference(some.insert(e)) =~= s.difference(some).remove(e));
        assert(s.union(Set::empty()) =~= s);
        assert(s.difference(Set::empty()) =~= s);
    }
}

} // verus!
