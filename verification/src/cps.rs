//! Continuation-passing traversal. "What happens after this subtree is fully
//! processed" is reified as an explicit continuation value, so that at most
//! one mutable handle to the accumulator is alive at any call site: the
//! accumulator is handed from continuation to continuation instead of being
//! captured twice.
//!
//! A continuation here is a first-class value of the enum [`Cont`] rather
//! than a boxed callable, so that the verifier can state what each
//! continuation, once run, appends to the accumulator. Call-stack depth is
//! still proportional to tree height; this variant solves only the aliasing
//! constraint, not unbounded depth.

use vstd::prelude::*;

use crate::tree::Tree;
use crate::tree::inorder_seq;
use crate::tree::tree_size;

verus! {

/// A one-shot continuation: the work that remains once the subtree currently
/// being walked is fully processed. Each continuation is consumed exactly
/// once, when it is applied.
pub enum Cont<'a, T> {
    /// The identity continuation: nothing remains to be done.
    Id,
    /// Append the value, walk the right subtree, then run the rest.
    AfterLeft(T, &'a Tree<T>, Box<Cont<'a, T>>),
}

/// The sequence a continuation appends to the accumulator when it is run.
pub open spec fn pending<T>(k: Cont<T>) -> Seq<T>
    decreases k,
{
    match k {
        Cont::Id => Seq::empty(),
        Cont::AfterLeft(val, right, rest) => seq![val] + inorder_seq(*right) + pending(*rest),
    }
}

/// A size measure on continuations, used together with `tree_size` to show
/// that the mutually recursive walk terminates.
pub open spec fn cont_size<T>(k: Cont<T>) -> nat
    decreases k,
{
    match k {
        Cont::Id => 0,
        Cont::AfterLeft(_val, right, rest) => 1 + tree_size(*right) + cont_size(*rest),
    }
}

/// Walks `t` in order, then runs the continuation `k`. For the empty tree the
/// continuation is run immediately: an empty subtree contributes nothing, so
/// control passes straight through to what comes after. For a node, the
/// after-left continuation (append the value, walk the right subtree, then
/// continue with `k`) is built, and the left subtree is walked under it.
pub fn cps_rec<'a, T: Copy>(t: &'a Tree<T>, res: &mut Vec<T>, k: Cont<'a, T>)
    ensures
        final(res)@ == old(res)@ + inorder_seq(*t) + pending(k),
    decreases tree_size(*t) + cont_size(k),
{
    match t {
        None => {
            apply(k, res);
        }
        Some(node) => {
            let after_left = Cont::AfterLeft(node.1, &node.2, Box::new(k));
            cps_rec(&node.0, res, after_left);
        }
    }
}

/// Runs a continuation on the accumulator: the identity continuation does
/// nothing, and an after-left continuation appends its value and walks its
/// right subtree under the rest of the continuation.
pub fn apply<'a, T: Copy>(k: Cont<'a, T>, res: &mut Vec<T>)
    ensures
        final(res)@ == old(res)@ + pending(k),
    decreases cont_size(k),
{
    match k {
        Cont::Id => {}
        Cont::AfterLeft(val, right, rest) => {
            res.push(val);
            cps_rec(right, res, *rest);
        }
    }
}

/// Traverses `t` in order into a fresh sequence, by walking it under the
/// identity continuation.
pub fn cps<T: Copy>(t: &Tree<T>) -> (r: Vec<T>)
    ensures
        r@ == inorder_seq(*t),
{
    let mut res: Vec<T> = Vec::new();
    cps_rec(t, &mut res, Cont::Id);
    res
}

} // verus!
