//! Trampolined traversal: same ordered sequence as the other variants, but
//! with native call-stack depth bounded by a constant, whatever the height of
//! the tree. The recursive step never descends into a left subtree inline;
//! it returns a [`Res`] instead, either `Done` or `More` with a deferred unit
//! of work, and a driving loop runs deferred units until `Done`. Each `More`
//! boundary is a guaranteed unwind point, so at the moment the loop forces a
//! unit, the native stack is only as deep as the loop's own frame plus one.

use vstd::prelude::*;

use crate::cps::Cont;
use crate::cps::cont_size;
use crate::cps::pending;
use crate::tree::Tree;
use crate::tree::inorder_seq;
use crate::tree::tree_size;

verus! {

/// A deferred unit of work: walk `tree` in order, then run the continuation
/// `k`. Forcing it performs one unit of the traversal and yields the next
/// [`Res`].
pub struct Thunk<'a, T> {
    pub tree: &'a Tree<T>,
    pub k: Cont<'a, T>,
}

impl<'a, T> Thunk<'a, T> {
    /// The sequence this unit of work, run to completion, appends to the
    /// accumulator.
    pub open spec fn remaining(self) -> Seq<T> {
        inorder_seq(*self.tree) + pending(self.k)
    }

    /// The size measure of the work left in this unit; each forced unit
    /// yields a strictly smaller one, so the driving loop terminates.
    pub open spec fn size(self) -> nat {
        tree_size(*self.tree) + cont_size(self.k)
    }
}

/// The state of a trampolined traversal: either fully complete, or holding
/// one deferred unit of work. `Done` is terminal; `More` steps to either
/// `Done` or another `More` when its unit of work is forced.
pub enum Res<'a, T> {
    Done,
    More(Thunk<'a, T>),
}

impl<'a, T> Res<'a, T> {
    /// The sequence still owed to the accumulator: nothing once `Done`.
    pub open spec fn remaining(self) -> Seq<T> {
        match self {
            Res::Done => Seq::empty(),
            Res::More(w) => w.remaining(),
        }
    }

    /// The size measure of the work left: zero once `Done`.
    pub open spec fn size(self) -> nat {
        match self {
            Res::Done => 0,
            Res::More(w) => w.size(),
        }
    }
}

/// Builds the continuation that runs after a left subtree: append `val`,
/// walk `right`, then continue with `k`.
pub fn cont<'a, T>(val: T, right: &'a Tree<T>, k: Cont<'a, T>) -> (r: Cont<'a, T>)
    ensures
        r matches Cont::AfterLeft(v, rt, rest) && v == val && rt == right && *rest == k,
        pending(r) == seq![val] + inorder_seq(*right) + pending(k),
        cont_size(r) == 1 + tree_size(*right) + cont_size(k),
{
    Cont::AfterLeft(val, right, Box::new(k))
}

/// Defers walking `tree` under the continuation `k` into one unit of work.
pub fn thunk<'a, T>(tree: &'a Tree<T>, k: Cont<'a, T>) -> (r: Thunk<'a, T>)
    ensures
        r.tree == tree,
        r.k == k,
        r.remaining() == inorder_seq(*tree) + pending(k),
        r.size() == tree_size(*tree) + cont_size(k),
{
    Thunk { tree, k }
}

/// One step of the trampolined walk of `t` under the continuation `k`. An
/// empty tree runs the continuation at once (a value dispatch, not a source
/// of depth); a node defers the descent into its left subtree, returning
/// `More` with the after-left continuation in place and the accumulator
/// untouched — all of the node's work is inside the `More` payload. The step
/// never leaves more work behind than it was given: a `More` result is
/// strictly smaller, so the driver reaches `Done`; and for a non-empty tree
/// the step is always `More`, so a non-empty traversal starts in the pending
/// state.
pub fn cps<'a, T: Copy>(t: &'a Tree<T>, res: &mut Vec<T>, k: Cont<'a, T>) -> (step: Res<'a, T>)
    ensures
        final(res)@ + step.remaining() == old(res)@ + inorder_seq(*t) + pending(k),
        step is More ==> step.size() < tree_size(*t) + cont_size(k),
        t is Some ==> step is More,
        t is Some ==> final(res)@ == old(res)@,
{
    match t {
        Some(node) => {
            let after_left = cont(node.1, &node.2, k);
            Res::More(thunk(&node.0, after_left))
        }
        None => {
            // The continuation is run at once: a pure value dispatch. Each
            // after-left entry over an empty right subtree hands control
            // straight to the next entry, so the dispatch is a loop, not a
            // chain of nested calls, and consumes no stack however long the
            // continuation has grown.
            let mut kk = k;
            loop
                invariant
                    (*t) is None,
                    res@ + pending(kk) == old(res)@ + pending(k),
                    cont_size(kk) <= cont_size(k),
                decreases cont_size(kk),
            {
                match kk {
                    Cont::Id => {
                        return Res::Done;
                    }
                    Cont::AfterLeft(val, right, rest) => {
                        res.push(val);
                        match right {
                            Some(node) => {
                                let after_left = cont(node.1, &node.2, *rest);
                                return Res::More(thunk(&node.0, after_left));
                            }
                            None => {
                                kk = *rest;
                            }
                        }
                    }
                }
            }
        }
    }
}

/// Walks `t` in order, appending every value to `res`, with native call-stack
/// depth independent of the height of the tree: the loop below is the sole
/// driver, replacing the current step with the result of forcing its unit of
/// work until the step is `Done`, and never stepping again after that.
pub fn inorder<T: Copy>(t: &Tree<T>, res: &mut Vec<T>)
    ensures
        final(res)@ == old(res)@ + inorder_seq(*t),
{
    let mut step = cps(t, res, Cont::Id);
    loop
        invariant
            res@ + step.remaining() == old(res)@ + inorder_seq(*t),
        ensures
            step is Done,
            res@ + step.remaining() == old(res)@ + inorder_seq(*t),
        decreases step.size(),
    {
        match step {
            Res::Done => {
                break;
            }
            Res::More(w) => {
                step = cps(w.tree, res, w.k);
            }
        }
    }
}

/// Traverses `t` in order into a fresh sequence, by trampolining.
pub fn inorder_trampoline<T: Copy>(t: &Tree<T>) -> (r: Vec<T>)
    ensures
        r@ == inorder_seq(*t),
{
    let mut res: Vec<T> = Vec::new();
    inorder(t, &mut res);
    res
}

} // verus!
