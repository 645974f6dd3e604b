//! The laws the traversals obey, stated over the in-order sequence that the
//! traversal contracts fix their results to.

use vstd::prelude::*;

use crate::trampoline::Res;
use crate::tree::Tree;
use crate::tree::inorder_seq;

verus! {

/// Equivalence: all three traversals of one tree produce the same sequence,
/// element for element, in the same order. Each traversal's contract fixes
/// its result to `inorder_seq` of the tree, so any results of
/// `direct::inorder_direct`, `cps::cps` and `trampoline::inorder_trampoline`
/// on one tree are equal.
pub proof fn lemma_traversals_agree<T>(
    t: Tree<T>,
    by_direct: Seq<T>,
    by_cps: Seq<T>,
    by_trampoline: Seq<T>,
)
    requires
        by_direct == inorder_seq(t),
        by_cps == inorder_seq(t),
        by_trampoline == inorder_seq(t),
    ensures
        by_direct == by_cps,
        by_cps == by_trampoline,
{
}

/// Idempotence: a traversal's result depends on the tree alone, so two
/// results of one traversal on the same (immutable) tree are identical.
pub proof fn lemma_traversal_idempotent<T>(t: Tree<T>, first: Seq<T>, second: Seq<T>)
    requires
        first == inorder_seq(t),
        second == inorder_seq(t),
    ensures
        first == second,
{
}

/// Empty tree: the in-order sequence of the empty tree is empty, so every
/// traversal returns an empty sequence for it.
pub proof fn lemma_inorder_empty<T>()
    ensures
        inorder_seq::<T>(None) == Seq::<T>::empty(),
{
}

/// Single leaf: the in-order sequence of a single node with two empty
/// children is the one-element sequence holding its value, so every
/// traversal of `Node::leaf(val)` returns exactly `[val]`.
pub proof fn lemma_inorder_leaf<T>(val: T, t: Tree<T>)
    requires
        t matches Some(n) && n.0 is None && n.1 == val && n.2 is None,
    ensures
        inorder_seq(t) == seq![val],
{
    reveal_with_fuel(inorder_seq, 2);
    assert(inorder_seq(t) =~= seq![val]);
}

/// `Done` is terminal: once the trampoline reaches `Done` it owes the
/// accumulator nothing and its work measure is exhausted, so the driver
/// stops and no later step is ever taken; the traversal passes through
/// exactly one `Done`.
pub proof fn lemma_done_is_terminal<T>()
    ensures
        Res::<T>::Done.remaining() == Seq::<T>::empty(),
        Res::<T>::Done.size() == 0,
{
}

} // verus!
