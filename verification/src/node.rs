//! Nodes of the transform graph and the references that name them.

use vstd::prelude::*;
use crate::transform::{identity_transform, Transform};

verus! {

/// An opaque index into a scene's node store. The default value
/// stands for "no transform": the root of the graph. References are
/// plain indices, never dangle (nodes are never removed), and compare
/// by index equality.
#[derive(Clone, Copy, Debug, PartialEq, Eq, Structural)]
pub struct NodeRef(u32);

impl NodeRef {
    /// The index this reference carries.
    pub closed spec fn index_spec(self) -> u32 {
        self.0
    }

    /// The root reference: index zero, the default.
    pub fn root() -> (r: NodeRef)
        ensures
            r.index_spec() == 0,
    {
        NodeRef(0)
    }

    pub(crate) fn from_index(index: u32) -> (r: NodeRef)
        ensures
            r.index_spec() == index,
    {
        NodeRef(index)
    }

    pub(crate) fn to_index(self) -> (index: u32)
        ensures
            index == self.index_spec(),
    {
        self.0
    }
}

impl Default for NodeRef {
    /// The default reference is the root.
    fn default() -> (r: NodeRef)
        ensures
            r.index_spec() == 0,
    {
        NodeRef(0)
    }
}

/// A stored transform together with the reference to its parent node;
/// the nodes of a scene form a tree through these parent links.
#[derive(Clone, Copy, Debug, PartialEq, Eq, Structural)]
pub struct Node {
    pub parent: NodeRef,
    pub local: Transform,
}

impl Default for Node {
    /// The default node hangs off the root and carries the identity
    /// transform.
    fn default() -> (n: Node)
        ensures
            n.parent.index_spec() == 0,
            n.local == identity_transform(),
    {
        Node { parent: NodeRef(0), local: Transform::default() }
    }
}

} // verus!
