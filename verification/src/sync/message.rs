//! The requests that the sync actor serves.
use vstd::prelude::*;

use crate::doc::{DocId, DocSpace};

verus! {

/// Replace a document with the one whose JSON form is `data`.
pub struct UpdateMessage {
    pub doc_space: DocSpace,
    pub doc_id: DocId,
    pub data: Vec<u8>,
}

/// Insert the document `doc_id`, whose JSON form is `data`, at `index` of the
/// list `property` of the document `collection_doc_id`.
pub struct ListInsertMessage {
    pub doc_space: DocSpace,
    pub collection_doc_id: DocId,
    pub doc_id: DocId,
    pub property: String,
    pub data: Vec<u8>,
    pub index: usize,
}

/// Read a document.
pub struct GetMessage {
    pub doc_space: DocSpace,
    pub doc_id: DocId,
}

/// Start syncing a document with a peer.
pub struct InitiateSyncMessage {
    pub doc_space: DocSpace,
    pub doc_id: DocId,
}

/// A request to the sync actor.
pub enum Message {
    /// Replace a document.
    Update(UpdateMessage),
    /// Insert a document into a list of another one.
    ListInsert(ListInsertMessage),
    /// Read a document.
    Get(GetMessage),
    /// List the addresses of the documents held.
    ListDocuments,
    /// Start syncing a document with a peer.
    InitiateSync(InitiateSyncMessage),
}

} // verus!
