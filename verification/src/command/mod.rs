//! The requests that the owner of a node sends it, and where each goes.
use vstd::prelude::*;

pub mod blobs;
pub mod sync;

use crate::blobs::BlobHash;
use crate::doc::{DocId, DocSpace};
use crate::models::NodeId;
use crate::sync::message::Message;

verus! {

/// The status of a node: its id.
pub struct Status {
    pub node_id: NodeId,
}

/// A request to a running node. A request that expects an answer is answered
/// by whoever it is dispatched to.
pub enum Command {
    /// Connect to a node and exchange an echo.
    ConnectAndEcho { node_id: NodeId },
    /// A request about documents.
    Sync(sync::Command),
    /// Report the node's status.
    Status,
    /// A request about blobs.
    Blobs(blobs::Command),
    /// Stop the node.
    Shutdown,
}

/// A request to the network actor.
pub enum NetworkMessage {
    /// Connect to a node and exchange an echo.
    ConnectAndEcho { node_id: NodeId },
    /// Connect to a node and sync a document with it.
    ConnectAndSync { node_id: NodeId, doc_space: DocSpace, doc_id: DocId },
    /// Report the endpoint's id.
    Status,
    /// Import files into the blob store and make a ticket for them.
    SendFiles { paths: Vec<String> },
    /// Download the files of a ticket into a directory.
    DownloadFiles { ticket: String, save_dir: String },
    /// How many distinct receivers have fully pulled the ticket of a hash.
    FilesTransferCount { hash: BlobHash },
}

/// Where a command goes.
pub enum Dispatch {
    /// To the network actor.
    Network(NetworkMessage),
    /// To the sync actor.
    Sync(Message),
    /// Nowhere: the node stops.
    Shutdown,
}

/// Where `c` goes: requests to the sync actor there, `Shutdown` nowhere, and
/// every other request, with what it carries, to the network actor (the
/// status too, since the node's id is the endpoint's).
pub open spec fn dispatch_of(c: Command) -> Dispatch {
    match c {
        Command::ConnectAndEcho { node_id } => Dispatch::Network(NetworkMessage::ConnectAndEcho { node_id }),
        Command::Sync(s) => sync::dispatch_of(s),
        Command::Status => Dispatch::Network(NetworkMessage::Status),
        Command::Blobs(b) => Dispatch::Network(blobs::network_message_of(b)),
        Command::Shutdown => Dispatch::Shutdown,
    }
}

/// The node's own requests: an echo goes to the network actor with the same
/// node, the status is asked of the network actor, and `Shutdown` goes
/// nowhere; blob requests go to the network actor as they are.
pub proof fn lemma_node_requests_routes(node_id: NodeId, b: blobs::Command)
    ensures
        dispatch_of(Command::ConnectAndEcho { node_id }) == Dispatch::Network(
            NetworkMessage::ConnectAndEcho { node_id },
        ),
        dispatch_of(Command::Status) == Dispatch::Network(NetworkMessage::Status),
        dispatch_of(Command::Shutdown) == Dispatch::Shutdown,
        dispatch_of(Command::Blobs(b)) == Dispatch::Network(blobs::network_message_of(b)),
{
}

/// Where `command` goes; the node stops exactly when it is `Shutdown`.
pub fn handle_command(command: Command) -> (res: Dispatch)
    ensures
        res == dispatch_of(command),
        res is Shutdown <==> command is Shutdown,
{
    match command {
        Command::ConnectAndEcho { node_id } => Dispatch::Network(NetworkMessage::ConnectAndEcho { node_id }),
        Command::Sync(s) => s.handle(),
        Command::Status => Dispatch::Network(NetworkMessage::Status),
        Command::Blobs(b) => Dispatch::Network(b.handle()),
        Command::Shutdown => Dispatch::Shutdown,
    }
}

} // verus!
