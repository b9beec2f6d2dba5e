//! The errors of a node.
use vstd::prelude::*;

use crate::{doc, protocol, rest, sync};

verus! {

/// Errors of a node.
#[derive(Debug)]
pub enum Error {
    /// A conversation with a peer failed.
    Network(protocol::Error),
    /// The sync actor refused a request.
    Sync(sync::Error),
    /// The REST server could not start.
    Http(rest::Error),
    /// The document registry refused a document.
    Doc(doc::Error),
    /// The configuration is not valid.
    InvalidConfig(String),
    /// A document was not of the kind that its address holds.
    UnexpectedDocumentType,
}

} // verus!
