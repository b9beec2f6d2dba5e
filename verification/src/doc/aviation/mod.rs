//! Travel documents.
use vstd::prelude::*;

pub mod flight;
pub mod flights;

verus! {

/// The space of the travel documents.
pub const DOC_SPACE: &'static str = "aviation";

} // verus!
