//! Identifiers that stand for nodes of the document tree.

use vstd::prelude::*;

verus! {

/// A key that stands for one node of the document tree. It can be compared
/// and hashed, and it gives nothing else away about the node.
#[derive(Clone, Copy, PartialEq, Eq, Hash, Debug, Structural)]
pub struct OpaqueNode(pub usize);

impl OpaqueNode {
    /// The number that identifies the node.
    pub fn id(&self) -> (id: usize)
        ensures
            id == self.0,
    {
        self.0
    }
}

} // verus!
