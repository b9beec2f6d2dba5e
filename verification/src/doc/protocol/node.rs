//! One node of the network, as the nodes document lists it.
use vstd::prelude::*;

verus! {

/// The id of the node document.
pub const DOC_ID: &'static str = "node";

/// A node: its id in text form and its signature.
pub struct Node {
    pub id: String,
    pub signature: String,
}

impl Node {
    /// The id and the signature.
    pub open spec fn view(&self) -> (Seq<char>, Seq<char>) {
        (self.id@, self.signature@)
    }
}

} // verus!
