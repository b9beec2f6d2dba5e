use atman::protocol::echo::{echo_greeting, echo_greeting_frames, echo_reply, ECHO_ROUNDS};
use atman::doc::{DocId, DocSpace};
use atman::frame::{decode_frame, encode_finish, encode_frame};
use atman::protocol::sync::{AfterSend, Phase, Role, SessionAction as Action, SessionEvent as Event, SyncSession};
use atman::protocol::{decode_doc_address, encode_doc_address, Error};
use atman::sync;

struct Side {
    session: SyncSession,
    pending: Option<Action>,
    inbox: Vec<u8>,
    to_generate: Vec<Vec<u8>>,
    applied: Vec<Vec<u8>>,
    initiated: Option<(String, String)>,
    result: Option<Result<(), Error>>,
}

impl Side {
    fn new(start: (SyncSession, Action), to_generate: Vec<Vec<u8>>) -> Side {
        Side {
            session: start.0,
            pending: Some(start.1),
            inbox: Vec::new(),
            to_generate,
            applied: Vec::new(),
            initiated: None,
            result: None,
        }
    }
}

/// Runs one side until it finishes or waits for bytes; returns what it sent.
fn run(side: &mut Side) -> Vec<u8> {
    let mut sent = Vec::new();
    while let Some(action) = side.pending.take() {
        let event = match action {
            Action::Send(b) => {
                sent.extend_from_slice(&b);
                Event::Sent(Ok(()))
            }
            Action::Read => match decode_frame(&side.inbox) {
                None => {
                    side.pending = Some(Action::Read);
                    return sent;
                }
                Some((frame, used)) => {
                    side.inbox.drain(..used);
                    Event::Received(Ok(frame))
                }
            },
            Action::InitiateSync { doc_space, doc_id } => {
                side.initiated = Some((doc_space.as_str().to_string(), doc_id.as_str().to_string()));
                Event::Initiated(Ok(()))
            }
            Action::Generate => {
                if side.to_generate.is_empty() {
                    Event::Generated(None)
                } else {
                    Event::Generated(Some(side.to_generate.remove(0)))
                }
            }
            Action::Apply(d) => {
                side.applied.push(d);
                Event::Applied(Ok(()))
            }
            Action::Finish(r) => {
                side.result = Some(r);
                return sent;
            }
        };
        assert!(side.session.accepts(&event));
        side.pending = Some(side.session.step(event));
    }
    sent
}

#[test]
fn trigger_and_listener_sync_until_one_side_is_done() {
    let mut trigger = Side::new(
        SyncSession::trigger(DocSpace::new("protocol"), DocId::new("nodes")),
        vec![b"t1".to_vec(), b"t2".to_vec()],
    );
    let mut listener = Side::new(SyncSession::listener(), vec![b"l1".to_vec()]);
    for _ in 0..10 {
        let out = run(&mut trigger);
        listener.inbox.extend_from_slice(&out);
        let out = run(&mut listener);
        trigger.inbox.extend_from_slice(&out);
        if trigger.result.is_some() && listener.result.is_some() {
            break;
        }
    }
    assert!(matches!(trigger.result, Some(Ok(()))));
    assert!(matches!(listener.result, Some(Ok(()))));
    assert_eq!(listener.initiated, Some(("protocol".to_string(), "nodes".to_string())));
    assert_eq!(trigger.initiated, Some(("protocol".to_string(), "nodes".to_string())));
    assert_eq!(listener.applied, vec![b"t1".to_vec(), b"t2".to_vec()]);
    assert_eq!(trigger.applied, vec![b"l1".to_vec()]);
    assert!(trigger.session.is_done());
    assert!(listener.session.is_done());
}

#[test]
fn trigger_without_first_message_fails() {
    let mut trigger = Side::new(
        SyncSession::trigger(DocSpace::new("aviation"), DocId::new("flights")),
        vec![],
    );
    let sent = run(&mut trigger);
    assert!(matches!(trigger.result, Some(Err(Error::InitialSyncMessageNotGenerated))));
    let mut expected = encode_doc_address(&DocSpace::new("aviation"), &DocId::new("flights"));
    expected.extend_from_slice(&encode_finish());
    assert_eq!(sent, expected);
}

#[test]
fn trigger_starts_by_naming_the_document() {
    let (session, action) = SyncSession::trigger(DocSpace::new("a"), DocId::new("b"));
    assert_eq!(session.role(), Role::Trigger);
    assert_eq!(session.phase(), Phase::Sending(AfterSend::Initiate));
    match action {
        Action::Send(b) => {
            let mut expected = encode_frame(b"a");
            expected.extend_from_slice(&encode_frame(b"b"));
            assert_eq!(b, expected);
        }
        _ => panic!("the trigger sends first"),
    }
}

#[test]
fn listener_refuses_finish_in_place_of_a_name() {
    let (mut session, action) = SyncSession::listener();
    assert!(matches!(action, Action::Read));
    let a = session.step(Event::Received(Ok(None)));
    assert!(matches!(a, Action::Finish(Err(Error::UnexpectedFinishMessage))));
    assert!(session.is_done());
    assert!(!session.accepts(&Event::Sent(Ok(()))));
}

#[test]
fn listener_refuses_names_that_are_not_utf8() {
    let (mut session, _) = SyncSession::listener();
    let a = session.step(Event::Received(Ok(Some(vec![0xff, 0xfe]))));
    assert!(matches!(a, Action::Finish(Err(Error::InvalidUtf8))));
}

#[test]
fn stream_and_actor_failures_end_the_conversation() {
    let (mut session, _) = SyncSession::listener();
    let a = session.step(Event::Received(Err("reset".to_string())));
    assert!(matches!(a, Action::Finish(Err(Error::Network(ref m))) if m == "reset"));

    let (mut session, _) = SyncSession::trigger(DocSpace::new("s"), DocId::new("i"));
    assert!(matches!(session.step(Event::Sent(Ok(()))), Action::InitiateSync { .. }));
    let refused = sync::Error::DocumentNotFound { doc_space: DocSpace::new("s"), doc_id: DocId::new("i") };
    let a = session.step(Event::Initiated(Err(refused)));
    assert!(matches!(a, Action::Finish(Err(Error::SyncActor(sync::Error::DocumentNotFound { .. })))));
}

#[test]
fn address_frames_read_back() {
    let mut buf = encode_doc_address(&DocSpace::new("aviation"), &DocId::new("flights"));
    buf.extend_from_slice(b"more");
    match decode_doc_address(&buf) {
        Ok(Some((s, i, used))) => {
            assert_eq!(s.as_str(), "aviation");
            assert_eq!(i.as_str(), "flights");
            assert_eq!(used, 8 + 8 + 8 + 7);
        }
        _ => panic!("address reads back"),
    }
    assert!(matches!(decode_doc_address(&buf[..10]), Ok(None)));
    assert!(matches!(decode_doc_address(&encode_finish()), Err(Error::UnexpectedFinishMessage)));
    assert!(matches!(decode_doc_address(&encode_frame(&[0xc3])), Err(Error::InvalidUtf8)));
}

#[test]
fn echo_client_sends_numbered_greetings() {
    assert_eq!(echo_greeting(0), "Hello echo 0");
    assert_eq!(echo_greeting(9), "Hello echo 9");
    assert_eq!(echo_greeting(123), "Hello echo 123");
    let frames = echo_greeting_frames();
    assert_eq!(frames.len() as u64, ECHO_ROUNDS);
    assert_eq!(frames[3], encode_frame(b"Hello echo 3"));
    // The listener sends each greeting back as it came.
    let (data, used) = decode_frame(&frames[3]).unwrap();
    assert_eq!(used, frames[3].len());
    assert_eq!(echo_reply(data.as_deref()), Some(frames[3].clone()));
}
