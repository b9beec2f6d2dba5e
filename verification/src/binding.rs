//! The commands that the C binding receives, with their text fields still as
//! raw bytes, and how they become requests of the node.
use vstd::prelude::*;

use crate::doc::{DocId, DocSpace};
use crate::sync::message::{GetMessage, ListInsertMessage, UpdateMessage};
use vstd::utf8::{decode_utf8, valid_utf8};

verus! {

/// The text that `bytes` stand for, with every invalid UTF-8 sequence
/// replaced by U+FFFD, as `String::from_utf8_lossy` makes it.
pub uninterp spec fn utf8_lossy(bytes: Seq<u8>) -> Seq<char>;

/// The text of `bytes`, invalid sequences replaced.
///
/// Calls `String::from_utf8_lossy`; its documentation says that valid UTF-8
/// is read as it is, which the contract states. What it makes of invalid
/// input is named, not stated.
#[verifier::external_body]
fn string_from_utf8_lossy(bytes: &[u8]) -> (res: String)
    ensures
        res@ == utf8_lossy(bytes@),
        valid_utf8(bytes@) ==> res@ == decode_utf8(bytes@),
{
    String::from_utf8_lossy(bytes).into_owned()
}

/// Why a command of the binding was refused.
#[derive(PartialEq, Eq, Structural, Clone, Copy, Debug)]
pub enum CommandError {
    /// The document space is not valid UTF-8.
    InvalidDocSpace,
    /// The collection's document id is not valid UTF-8.
    InvalidCollectionDocId,
    /// The document id is not valid UTF-8.
    InvalidDocId,
}

/// The document's name in `bytes`, or `err` where they are not UTF-8.
fn space_from(bytes: &[u8], err: CommandError) -> (res: Result<DocSpace, CommandError>)
    ensures
        valid_utf8(bytes@) ==> (res matches Ok(s) && s@ == decode_utf8(bytes@)),
        !valid_utf8(bytes@) ==> res == Err::<DocSpace, CommandError>(err),
{
    match DocSpace::try_from_bytes(bytes) {
        Some(s) => Ok(s),
        None => Err(err),
    }
}

/// The document's id in `bytes`, or `err` where they are not UTF-8.
fn id_from(bytes: &[u8], err: CommandError) -> (res: Result<DocId, CommandError>)
    ensures
        valid_utf8(bytes@) ==> (res matches Ok(s) && s@ == decode_utf8(bytes@)),
        !valid_utf8(bytes@) ==> res == Err::<DocId, CommandError>(err),
{
    match DocId::try_from_bytes(bytes) {
        Some(s) => Ok(s),
        None => Err(err),
    }
}

/// Connect to a node and sync a document.
pub struct ConnectAndSyncCommand {
    pub node_id: Vec<u8>,
    pub doc_space: Vec<u8>,
    pub doc_id: Vec<u8>,
}

impl ConnectAndSyncCommand {
    /// The node id's text (read leniently) and the document's address.
    pub fn decode(&self) -> (res: Result<(String, DocSpace, DocId), CommandError>)
        ensures
            !valid_utf8(self.doc_space@) ==> res == Err::<(String, DocSpace, DocId), CommandError>(
                CommandError::InvalidDocSpace,
            ),
            valid_utf8(self.doc_space@) && !valid_utf8(self.doc_id@) ==> res == Err::<
                (String, DocSpace, DocId),
                CommandError,
            >(CommandError::InvalidDocId),
            valid_utf8(self.doc_space@) && valid_utf8(self.doc_id@) ==> (res matches Ok((n, s, i))
                && n@ == utf8_lossy(self.node_id@) && s@ == decode_utf8(self.doc_space@) && i@
                == decode_utf8(self.doc_id@)),
    {
        let node_id = string_from_utf8_lossy(self.node_id.as_slice());
        let doc_space = space_from(self.doc_space.as_slice(), CommandError::InvalidDocSpace)?;
        let doc_id = id_from(self.doc_id.as_slice(), CommandError::InvalidDocId)?;
        Ok((node_id, doc_space, doc_id))
    }
}

/// Replace a document.
pub struct SyncUpdateCommand {
    pub doc_space: Vec<u8>,
    pub doc_id: Vec<u8>,
    pub data: Vec<u8>,
}

impl SyncUpdateCommand {
    /// The request to the sync actor.
    pub fn into_message(self) -> (res: Result<UpdateMessage, CommandError>)
        ensures
            !valid_utf8(self.doc_space@) ==> res matches Err(CommandError::InvalidDocSpace),
            valid_utf8(self.doc_space@) && !valid_utf8(self.doc_id@) ==> res matches Err(
                CommandError::InvalidDocId,
            ),
            valid_utf8(self.doc_space@) && valid_utf8(self.doc_id@) ==> (res matches Ok(m)
                && m.doc_space@ == decode_utf8(self.doc_space@) && m.doc_id@ == decode_utf8(
                self.doc_id@) && m.data@ == self.data@),
    {
        let doc_space = space_from(self.doc_space.as_slice(), CommandError::InvalidDocSpace)?;
        let doc_id = id_from(self.doc_id.as_slice(), CommandError::InvalidDocId)?;
        Ok(UpdateMessage { doc_space, doc_id, data: self.data })
    }
}

/// Insert a document into a list of another one.
pub struct SyncListInsertCommand {
    pub doc_space: Vec<u8>,
    pub collection_doc_id: Vec<u8>,
    pub doc_id: Vec<u8>,
    pub property: Vec<u8>,
    pub data: Vec<u8>,
    pub index: usize,
}

impl SyncListInsertCommand {
    /// The request to the sync actor; the property's name is read leniently.
    pub fn into_message(self) -> (res: Result<ListInsertMessage, CommandError>)
        ensures
            !valid_utf8(self.doc_space@) ==> res matches Err(CommandError::InvalidDocSpace),
            valid_utf8(self.doc_space@) && !valid_utf8(self.collection_doc_id@) ==> res matches Err(
                CommandError::InvalidCollectionDocId,
            ),
            valid_utf8(self.doc_space@) && valid_utf8(self.collection_doc_id@) && !valid_utf8(
                self.doc_id@,
            ) ==> res matches Err(CommandError::InvalidDocId),
            valid_utf8(self.doc_space@) && valid_utf8(self.collection_doc_id@) && valid_utf8(
                self.doc_id@,
            ) ==> (res matches Ok(m) && m.doc_space@ == decode_utf8(self.doc_space@)
                && m.collection_doc_id@ == decode_utf8(self.collection_doc_id@) && m.doc_id@
                == decode_utf8(self.doc_id@) && m.property@ == utf8_lossy(self.property@) && m.data@
                == self.data@ && m.index == self.index),
    {
        let doc_space = space_from(self.doc_space.as_slice(), CommandError::InvalidDocSpace)?;
        let collection_doc_id = id_from(
            self.collection_doc_id.as_slice(),
            CommandError::InvalidCollectionDocId,
        )?;
        let doc_id = id_from(self.doc_id.as_slice(), CommandError::InvalidDocId)?;
        let property = string_from_utf8_lossy(self.property.as_slice());
        Ok(
            ListInsertMessage {
                doc_space,
                collection_doc_id,
                doc_id,
                property,
                data: self.data,
                index: self.index,
            },
        )
    }
}

/// Read a document.
pub struct SyncGetCommand {
    pub doc_space: Vec<u8>,
    pub doc_id: Vec<u8>,
}

impl SyncGetCommand {
    /// The request to the sync actor.
    pub fn to_message(&self) -> (res: Result<GetMessage, CommandError>)
        ensures
            !valid_utf8(self.doc_space@) ==> res matches Err(CommandError::InvalidDocSpace),
            valid_utf8(self.doc_space@) && !valid_utf8(self.doc_id@) ==> res matches Err(
                CommandError::InvalidDocId,
            ),
            valid_utf8(self.doc_space@) && valid_utf8(self.doc_id@) ==> (res matches Ok(m)
                && m.doc_space@ == decode_utf8(self.doc_space@) && m.doc_id@ == decode_utf8(
                self.doc_id@)),
    {
        let doc_space = space_from(self.doc_space.as_slice(), CommandError::InvalidDocSpace)?;
        let doc_id = id_from(self.doc_id.as_slice(), CommandError::InvalidDocId)?;
        Ok(GetMessage { doc_space, doc_id })
    }
}

} // verus!
