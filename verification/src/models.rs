//! Nodes of the network as the node itself handles them: by their 32-byte
//! public key.
use vstd::prelude::*;

use crate::doc::protocol::node::Node as DocNode;
use crate::keyed::KeyLike;

verus! {

/// The 32-byte public key that identifies a node.
pub struct NodeId {
    pub bytes: [u8; 32],
}

impl KeyLike for NodeId {
    type KeyView = Seq<u8>;

    open spec fn key_view(&self) -> Seq<u8> {
        self.bytes@
    }

    fn same_key(&self, other: &Self) -> (res: bool) {
        let mut i: usize = 0;
        while i < 32
            invariant
                i <= 32,
                self.bytes@.len() == 32,
                other.bytes@.len() == 32,
                forall|j: int| 0 <= j < i ==> self.bytes@[j] == other.bytes@[j],
            decreases 32 - i,
        {
            if self.bytes[i] != other.bytes[i] {
                return false;
            }
            i = i + 1;
        }
        proof {
            assert(self.bytes@ =~= other.bytes@);
        }
        true
    }

    fn copy_key(&self) -> (res: Self) {
        NodeId { bytes: self.bytes }
    }
}

/// A node of the network.
pub struct Node {
    pub id: NodeId,
}

impl Node {
    /// The entry that lists this node in the nodes document, given the text
    /// form of its id: the id and an empty signature.
    pub fn to_doc_node(&self, id_text: String) -> (res: DocNode)
        ensures
            res.id@ == id_text@,
            res.signature@ == Seq::<char>::empty(),
    {
        DocNode { id: id_text, signature: String::new() }
    }
}

} // verus!
