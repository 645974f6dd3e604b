//! The baseline traversal: direct recursion. Its native call-stack depth
//! grows with the height of the tree; it is the oracle the other variants
//! are held to.

use vstd::prelude::*;

use crate::tree::Tree;
use crate::tree::inorder_seq;

verus! {

/// Walks `t` in order and appends every value to `res`: the left subtree,
/// then the node's value, then the right subtree, recursively.
pub fn inorder<T: Copy>(t: &Tree<T>, res: &mut Vec<T>)
    ensures
        final(res)@ == old(res)@ + inorder_seq(*t),
    decreases *t,
{
    match t {
        None => {}
        Some(node) => {
            inorder(&node.0, res);
            res.push(node.1);
            inorder(&node.2, res);
        }
    }
}

/// Traverses `t` in order into a fresh sequence.
pub fn inorder_direct<T: Copy>(t: &Tree<T>) -> (r: Vec<T>)
    ensures
        r@ == inorder_seq(*t),
{
    let mut res: Vec<T> = Vec::new();
    inorder(t, &mut res);
    res
}

} // verus!
