//! Documents that the nodes keep about themselves.
use vstd::prelude::*;

pub mod node;
pub mod nodes;

verus! {

/// The space of the protocol documents.
pub const DOC_SPACE: &'static str = "protocol";

} // verus!
