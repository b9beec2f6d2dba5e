//! The requests about blobs.
use vstd::prelude::*;

use super::NetworkMessage;
use crate::blobs::BlobHash;

verus! {

/// A request about blobs.
pub enum Command {
    /// Import files into the blob store and make a ticket for them.
    SendFiles { paths: Vec<String> },
    /// Download the files of a ticket into a directory; progress is reported
    /// as [`DownloadProgress`] events.
    DownloadFiles { ticket: String, save_dir: String },
    /// How many distinct receivers have fully pulled the ticket of a hash.
    FilesTransferCount { hash: BlobHash },
}

/// The request to the network actor that `c` becomes: the same request, with
/// what it carries.
pub open spec fn network_message_of(c: Command) -> NetworkMessage {
    match c {
        Command::SendFiles { paths } => NetworkMessage::SendFiles { paths },
        Command::DownloadFiles { ticket, save_dir } => NetworkMessage::DownloadFiles { ticket, save_dir },
        Command::FilesTransferCount { hash } => NetworkMessage::FilesTransferCount { hash },
    }
}

/// A request about blobs goes to the network actor as the same request,
/// with what it carries unchanged.
pub proof fn lemma_blob_requests_pass_unchanged(paths: Vec<String>, ticket: String, save_dir: String, hash: BlobHash)
    ensures
        network_message_of((Command::SendFiles { paths })) == (NetworkMessage::SendFiles { paths }),
        network_message_of((Command::DownloadFiles { ticket, save_dir })) == (NetworkMessage::DownloadFiles {
            ticket,
            save_dir,
        }),
        network_message_of((Command::FilesTransferCount { hash })) == (NetworkMessage::FilesTransferCount {
            hash,
        }),
{
}

impl Command {
    /// The request to the network actor.
    pub fn handle(self) -> (res: NetworkMessage)
        ensures
            res == network_message_of(self),
    {
        match self {
            Command::SendFiles { paths } => NetworkMessage::SendFiles { paths },
            Command::DownloadFiles { ticket, save_dir } => NetworkMessage::DownloadFiles { ticket, save_dir },
            Command::FilesTransferCount { hash } => NetworkMessage::FilesTransferCount { hash },
        }
    }
}

/// Progress of a download, as the receiving side reports it.
pub enum DownloadProgress {
    /// Payload bytes received so far.
    Bytes { downloaded: u64 },
    /// All bytes have been received.
    FetchDone {
        payload_bytes_read: u64,
        other_bytes_read: u64,
        elapsed_secs: u64,
        elapsed_subsec_nanos: u32,
    },
    /// One file has been saved at `path`.
    FileExported { path: String },
}

} // verus!
