//! The requests about documents.
use vstd::prelude::*;

use super::{Dispatch, NetworkMessage};
use crate::doc::{DocId, DocSpace};
use crate::models::NodeId;
use crate::sync::message::Message;

verus! {

/// A request about documents.
pub enum Command {
    /// Connect to a node and sync a document with it.
    ConnectAndSync { node_id: NodeId, doc_space: DocSpace, doc_id: DocId },
    /// A request to the sync actor.
    Sync(Message),
}

/// Where `c` goes: a sync with a peer to the network actor, any other request
/// to the sync actor, each with what it carries.
pub open spec fn dispatch_of(c: Command) -> Dispatch {
    match c {
        Command::ConnectAndSync { node_id, doc_space, doc_id } => Dispatch::Network(
            NetworkMessage::ConnectAndSync { node_id, doc_space, doc_id },
        ),
        Command::Sync(m) => Dispatch::Sync(m),
    }
}

/// A request to the sync actor goes to the sync actor as it is, with every
/// field unchanged; a sync with a peer goes to the network actor with the
/// same node and document.
pub proof fn lemma_sync_requests_pass_unchanged(m: Message, node_id: NodeId, doc_space: DocSpace, doc_id: DocId)
    ensures
        dispatch_of(Command::Sync(m)) == Dispatch::Sync(m),
        super::dispatch_of(super::Command::Sync(Command::Sync(m))) == Dispatch::Sync(m),
        dispatch_of(Command::ConnectAndSync { node_id, doc_space, doc_id }) == Dispatch::Network(
            NetworkMessage::ConnectAndSync { node_id, doc_space, doc_id },
        ),
{
}

impl Command {
    /// Where the request goes.
    pub fn handle(self) -> (res: Dispatch)
        ensures
            res == dispatch_of(self),
    {
        match self {
            Command::ConnectAndSync { node_id, doc_space, doc_id } => Dispatch::Network(
                NetworkMessage::ConnectAndSync { node_id, doc_space, doc_id },
            ),
            Command::Sync(m) => Dispatch::Sync(m),
        }
    }
}

} // verus!
