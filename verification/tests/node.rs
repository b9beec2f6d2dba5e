use atman::blobs::BlobHash;
use atman::command::{blobs, handle_command, Command, Dispatch, NetworkMessage};
use atman::command::sync as sync_command;
use atman::doc::{DocId, DocSpace};
use atman::error::Error;
use atman::models::NodeId;
use atman::node::{Atman, RunAction, RunEvent, RunPhase};
use atman::protocol;
use atman::sync;
use atman::sync::message::{GetMessage, Message};

fn node(b: u8) -> NodeId {
    NodeId { bytes: [b; 32] }
}

fn started(interval: Option<u64>) -> Atman {
    let mut a = Atman::new(interval, false);
    assert!(matches!(a.step(RunEvent::SyncActorStarted(Ok(()))), RunAction::StartNetworkActor));
    assert!(matches!(a.step(RunEvent::NetworkActorStarted(Ok(()))), RunAction::SaveLocalNode));
    assert!(matches!(a.step(RunEvent::LocalNodeSaved(Ok(()))), RunAction::ReportReady));
    assert_eq!(a.phase(), RunPhase::Running);
    a
}

#[test]
fn command_routes() {
    match handle_command(Command::ConnectAndEcho { node_id: node(3) }) {
        Dispatch::Network(NetworkMessage::ConnectAndEcho { node_id }) => assert_eq!(node_id.bytes, [3; 32]),
        _ => panic!("wrong route"),
    }
    match handle_command(Command::Sync(sync_command::Command::ConnectAndSync {
        node_id: node(4),
        doc_space: DocSpace::new("aviation"),
        doc_id: DocId::new("flights"),
    })) {
        Dispatch::Network(NetworkMessage::ConnectAndSync { node_id, doc_space, doc_id }) => {
            assert_eq!(node_id.bytes, [4; 32]);
            assert_eq!(doc_space.as_str(), "aviation");
            assert_eq!(doc_id.as_str(), "flights");
        }
        _ => panic!("wrong route"),
    }
    let get = GetMessage { doc_space: DocSpace::new("protocol"), doc_id: DocId::new("nodes") };
    match handle_command(Command::Sync(sync_command::Command::Sync(Message::Get(get)))) {
        Dispatch::Sync(Message::Get(m)) => assert_eq!(m.doc_id.as_str(), "nodes"),
        _ => panic!("wrong route"),
    }
    assert!(matches!(handle_command(Command::Status), Dispatch::Network(NetworkMessage::Status)));
    match handle_command(Command::Blobs(blobs::Command::SendFiles { paths: vec!["a.txt".to_string()] })) {
        Dispatch::Network(NetworkMessage::SendFiles { paths }) => assert_eq!(paths, vec!["a.txt".to_string()]),
        _ => panic!("wrong route"),
    }
    match handle_command(Command::Blobs(blobs::Command::DownloadFiles { ticket: "t".to_string(), save_dir: "d".to_string() })) {
        Dispatch::Network(NetworkMessage::DownloadFiles { ticket, save_dir }) => {
            assert_eq!(ticket, "t");
            assert_eq!(save_dir, "d");
        }
        _ => panic!("wrong route"),
    }
    match handle_command(Command::Blobs(blobs::Command::FilesTransferCount { hash: BlobHash { bytes: [9; 32] } })) {
        Dispatch::Network(NetworkMessage::FilesTransferCount { hash }) => assert_eq!(hash.bytes, [9; 32]),
        _ => panic!("wrong route"),
    }
    assert!(matches!(handle_command(Command::Shutdown), Dispatch::Shutdown));
}

#[test]
fn node_starts_serves_and_stops() {
    let mut a = started(Some(30));
    assert_eq!(a.sync_interval(), Some(30));
    assert!(a.accepts(&RunEvent::TimerTicked));
    assert!(matches!(a.step(RunEvent::TimerTicked), RunAction::SyncWithPeers));
    assert!(matches!(
        a.step(RunEvent::CommandReceived(Command::Status)),
        RunAction::Dispatch(Dispatch::Network(NetworkMessage::Status))
    ));
    assert_eq!(a.phase(), RunPhase::Running);
    assert!(matches!(a.step(RunEvent::CommandReceived(Command::Shutdown)), RunAction::Stop));
    assert_eq!(a.phase(), RunPhase::Stopped);
    assert!(!a.accepts(&RunEvent::CommandReceived(Command::Status)));
    assert!(!a.accepts(&RunEvent::TimerTicked));
}

#[test]
fn no_ticks_without_interval() {
    let a = started(None);
    assert!(!a.accepts(&RunEvent::TimerTicked));
    assert!(a.accepts(&RunEvent::CommandReceived(Command::Status)));
}

#[test]
fn start_failures_are_reported_and_stop() {
    let mut a = Atman::new(None, false);
    assert!(!a.accepts(&RunEvent::NetworkActorStarted(Ok(()))));
    let e = sync::Error::Io { message: "open".to_string(), cause: "denied".to_string() };
    match a.step(RunEvent::SyncActorStarted(Err(e))) {
        RunAction::ReportFailure(Error::Sync(sync::Error::Io { message, .. })) => assert_eq!(message, "open"),
        _ => panic!("expected the sync failure"),
    }
    assert_eq!(a.phase(), RunPhase::Stopped);

    let mut b = Atman::new(None, false);
    b.step(RunEvent::SyncActorStarted(Ok(())));
    match b.step(RunEvent::NetworkActorStarted(Err(protocol::Error::Network("bind".to_string())))) {
        RunAction::ReportFailure(Error::Network(protocol::Error::Network(m))) => assert_eq!(m, "bind"),
        _ => panic!("expected the network failure"),
    }
    assert_eq!(b.phase(), RunPhase::Stopped);

    let mut c = Atman::new(None, false);
    c.step(RunEvent::SyncActorStarted(Ok(())));
    c.step(RunEvent::NetworkActorStarted(Ok(())));
    assert!(matches!(
        c.step(RunEvent::LocalNodeSaved(Err(Error::UnexpectedDocumentType))),
        RunAction::ReportFailure(Error::UnexpectedDocumentType)
    ));
    assert_eq!(c.phase(), RunPhase::Stopped);
}

#[test]
fn rest_server_starts_before_the_local_node_is_saved() {
    let mut a = Atman::new(None, true);
    assert!(matches!(a.step(RunEvent::SyncActorStarted(Ok(()))), RunAction::StartNetworkActor));
    assert!(matches!(a.step(RunEvent::NetworkActorStarted(Ok(()))), RunAction::StartRestActor));
    assert_eq!(a.phase(), RunPhase::StartingRest);
    assert!(matches!(a.step(RunEvent::RestActorStarted(Ok(()))), RunAction::SaveLocalNode));
    assert!(matches!(a.step(RunEvent::LocalNodeSaved(Ok(()))), RunAction::ReportReady));

    let mut b = Atman::new(None, true);
    b.step(RunEvent::SyncActorStarted(Ok(())));
    b.step(RunEvent::NetworkActorStarted(Ok(())));
    let e = atman::rest::Error::Io { message: "Failed to listen on port".to_string(), cause: "in use".to_string() };
    match b.step(RunEvent::RestActorStarted(Err(e))) {
        RunAction::ReportFailure(Error::Http(atman::rest::Error::Io { message, .. })) => {
            assert_eq!(message, "Failed to listen on port")
        }
        _ => panic!("expected the REST failure"),
    }
    assert_eq!(b.phase(), RunPhase::Stopped);
}
