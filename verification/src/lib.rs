//! In-order traversal of binary trees, three ways: direct recursion,
//! continuation-passing style, and a trampolined loop whose native call-stack
//! depth stays constant however deep the tree is.
//!
//! All three traversals are proved to produce `tree::inorder_seq`, the
//! mathematical in-order sequence of the tree, so they agree with one another
//! on every finite tree; `laws` states that agreement, and the other
//! properties the traversals obey, as proved lemmas.

pub mod cps;
pub mod direct;
pub mod laws;
pub mod trampoline;
pub mod tree;

pub use cps::cps as inorder_cps;
pub use direct::inorder_direct;
pub use trampoline::inorder_trampoline;
pub use tree::Node;
pub use tree::Tree;
