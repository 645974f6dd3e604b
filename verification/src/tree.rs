//! The tree model: an immutable binary tree that exclusively owns its
//! subtrees, and the in-order sequence that the traversals must produce.

use vstd::prelude::*;

verus! {

/// A node is a tuple of (left, value, right). Each node exclusively owns both
/// subtrees: no sharing, no cycles, no parent pointers.
pub struct Node<T>(pub Tree<T>, pub T, pub Tree<T>);

/// A tree is an optional pointer to a node; `None` is the empty tree.
pub type Tree<T> = Option<Box<Node<T>>>;

/// The in-order sequence of a tree: everything in the left subtree, then the
/// node's value, then everything in the right subtree. This is the reference
/// semantics that every traversal is proved against.
pub open spec fn inorder_seq<T>(t: Tree<T>) -> Seq<T>
    decreases t,
{
    match t {
        None => Seq::empty(),
        Some(n) => inorder_seq(n.0) + seq![n.1] + inorder_seq(n.2),
    }
}

/// A size measure on trees, used to show that the traversals terminate.
/// An empty tree counts one and a node counts two, so that replacing a node
/// by its left subtree plus one deferred continuation entry strictly shrinks
/// the combined measure.
pub open spec fn tree_size<T>(t: Tree<T>) -> nat
    decreases t,
{
    match t {
        None => 1,
        Some(n) => 2 + tree_size(n.0) + tree_size(n.2),
    }
}

impl<T> Node<T> {
    /// Wraps `left`, `val` and `right` into a tree, taking ownership of both
    /// subtrees exactly as given. Construction always succeeds and has no
    /// side effects.
    pub fn node(left: Tree<T>, val: T, right: Tree<T>) -> (r: Tree<T>)
        ensures
            r matches Some(n) && n.0 == left && n.1 == val && n.2 == right,
            inorder_seq(r) == inorder_seq(left) + seq![val] + inorder_seq(right),
            tree_size(r) == 2 + tree_size(left) + tree_size(right),
    {
        Some(Box::new(Node(left, val, right)))
    }

    /// A single-node tree with two empty children.
    pub fn leaf(val: T) -> (r: Tree<T>)
        ensures
            r matches Some(n) && n.0 is None && n.1 == val && n.2 is None,
            inorder_seq(r) == seq![val],
            tree_size(r) == 4,
    {
        Node::node(None, val, None)
    }
}

/// Holds when `t` is a pure left chain over `vals`: empty when `vals` is,
/// else a node with an empty right subtree, the last value at the root, and
/// a pure left chain over the remaining values as its left subtree. Such a
/// chain is as deep as `vals` is long.
pub open spec fn is_left_chain<T>(t: Tree<T>, vals: Seq<T>) -> bool
    decreases t,
{
    match t {
        None => vals.len() == 0,
        Some(n) => vals.len() > 0 && n.1 == vals.last() && n.2 is None && is_left_chain(
            n.0,
            vals.drop_last(),
        ),
    }
}

/// Holds when `t` is a pure right chain over `vals`: empty when `vals` is,
/// else a node with an empty left subtree, the first value at the root, and
/// a pure right chain over the remaining values as its right subtree. Such a
/// chain is as deep as `vals` is long.
pub open spec fn is_right_chain<T>(t: Tree<T>, vals: Seq<T>) -> bool
    decreases t,
{
    match t {
        None => vals.len() == 0,
        Some(n) => vals.len() > 0 && n.0 is None && n.1 == vals.first() && is_right_chain(
            n.2,
            vals.subrange(1, vals.len() as int),
        ),
    }
}

/// Builds the pure left chain over `vals`. Its in-order sequence is exactly
/// `vals`, in chain order.
pub fn left_chain<T: Copy>(vals: &Vec<T>) -> (r: Tree<T>)
    ensures
        is_left_chain(r, vals@),
        inorder_seq(r) == vals@,
{
    let mut t: Tree<T> = None;
    let mut i: usize = 0;
    while i < vals.len()
        invariant
            i <= vals.len(),
            is_left_chain(t, vals@.subrange(0, i as int)),
            inorder_seq(t) == vals@.subrange(0, i as int),
        decreases vals.len() - i,
    {
        t = Node::node(t, vals[i], None);
        i = i + 1;
        proof {
            assert(vals@.subrange(0, i as int).drop_last() =~= vals@.subrange(0, i - 1));
        }
    }
    proof {
        assert(vals@.subrange(0, vals@.len() as int) =~= vals@);
    }
    t
}

/// Builds the pure right chain over `vals`. Its in-order sequence is exactly
/// `vals`, in chain order.
pub fn right_chain<T: Copy>(vals: &Vec<T>) -> (r: Tree<T>)
    ensures
        is_right_chain(r, vals@),
        inorder_seq(r) == vals@,
{
    let mut t: Tree<T> = None;
    let mut i: usize = vals.len();
    while i > 0
        invariant
            i <= vals.len(),
            is_right_chain(t, vals@.subrange(i as int, vals@.len() as int)),
            inorder_seq(t) == vals@.subrange(i as int, vals@.len() as int),
        decreases i,
    {
        i = i - 1;
        t = Node::node(None, vals[i], t);
        proof {
            assert(vals@.subrange(i as int, vals@.len() as int).subrange(
                1,
                vals@.len() - i,
            ) =~= vals@.subrange(i + 1, vals@.len() as int));
        }
    }
    proof {
        assert(vals@.subrange(0, vals@.len() as int) =~= vals@);
    }
    t
}

} // verus!
