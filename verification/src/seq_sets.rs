//! How the set of the items of a sequence grows along the sequence.

use vstd::prelude::*;

verus! {

/// The set of the first `n + 1` items of a sequence is the set of its first
/// `n` items with the item at `n` added.
pub(crate) proof fn take_next_to_set<A>(items: Seq<A>, n: int)
    requires
        0 <= n < items.len(),
    ensures
        items.take(n + 1).to_set() == items.take(n).to_set().insert(items[n]),
{
    assert(items.take(n + 1) =~= items.take(n).push(items[n]));
    items.take(n).lemma_push_to_set_commute(items[n]);
}

/// Taking no item of a sequence gives the empty set, and taking all of them
/// gives the set of the sequence.
pub(crate) proof fn take_ends_to_set<A>(items: Seq<A>)
    ensures
        items.take(0).to_set() == Set::<A>::empty(),
        items.take(items.len() as int).to_set() == items.to_set(),
{
    assert(items.take(0).to_set() =~= Set::<A>::empty());
    assert(items.take(items.len() as int) =~= items);
}

} // verus!
