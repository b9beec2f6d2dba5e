//! The sync conversation of one side, as a state machine.
//!
//! The trigger names the document, asks the sync actor for a sync handle,
//! sends a first sync message, and then answers every message of the peer
//! with its own until one side has nothing more to say. The listener reads the
//! document's name, asks for a handle, and answers in the same way. A side
//! that has nothing more to say sends the finish frame; a side that reads the
//! finish frame stops.
//!
//! [`SyncSession::step`] takes what happened ([`SessionEvent`]) and says what
//! to do next ([`SessionAction`]); the caller performs the action on the
//! stream or the sync actor and reports back.
use vstd::prelude::*;

use super::{doc_address_bytes, encode_doc_address, name_from_frame, Error};
use crate::doc::{DocId, DocSpace};
use crate::models::NodeId;
use crate::frame::{encode_finish, encode_sync_msg, finish_bytes, frame_bytes};
use crate::sync;
use vstd::utf8::{decode_utf8, valid_utf8};

verus! {

/// What the listening side reports about a connection.
pub enum Event {
    /// A peer connected.
    Accepted { node_id: NodeId },
    /// The connection ended, with the error that ended it, if any.
    Closed { node_id: NodeId, error: Option<String> },
}

/// Which side of the conversation a session is.
#[derive(PartialEq, Eq, Structural, Clone, Copy, Debug)]
pub enum Role {
    /// The side that opened the connection and names the document.
    Trigger,
    /// The side that accepted the connection.
    Listener,
}

/// What follows once a send has gone out.
#[derive(PartialEq, Eq, Structural, Clone, Copy, Debug)]
pub enum AfterSend {
    /// Ask the sync actor for a handle.
    Initiate,
    /// Read the peer's next frame.
    Read,
    /// Stop: the conversation is over.
    Stop,
    /// Stop with `InitialSyncMessageNotGenerated`.
    StopInitialNotGenerated,
}

/// Where a session is.
#[derive(PartialEq, Eq, Structural, Clone, Copy, Debug)]
pub enum Phase {
    /// Waiting for a send to go out.
    Sending(AfterSend),
    /// The listener waits for the frame that names the space.
    ReadingSpace,
    /// The listener waits for the frame that names the id.
    ReadingId,
    /// Waiting for the sync actor's handle.
    Initiating,
    /// Waiting for the handle to generate a message; `true` before the
    /// trigger's first message.
    Generating(bool),
    /// Waiting for the peer's next frame.
    Reading,
    /// Waiting for the sync actor to apply the peer's message.
    Applying,
    /// The conversation is over.
    Done,
}

/// What happened since the last action.
pub enum SessionEvent {
    /// The bytes of a `Send` went out, or writing them failed.
    Sent(Result<(), String>),
    /// A frame came in (`None` for the finish frame), or reading failed.
    Received(Result<Option<Vec<u8>>, String>),
    /// The sync actor handed out a handle, or refused.
    Initiated(Result<(), sync::Error>),
    /// The handle generated a message, or had nothing to send.
    Generated(Option<Vec<u8>>),
    /// The sync actor applied the peer's message, or refused.
    Applied(Result<(), sync::Error>),
}

/// What to do next.
pub enum SessionAction {
    /// Write these bytes to the stream.
    Send(Vec<u8>),
    /// Read the next frame.
    Read,
    /// Ask the sync actor for a handle on this document.
    InitiateSync { doc_space: DocSpace, doc_id: DocId },
    /// Ask the handle for the next message.
    Generate,
    /// Ask the sync actor to apply this message of the peer.
    Apply(Vec<u8>),
    /// The conversation is over, with this result.
    Finish(Result<(), Error>),
}

/// Whether an event is the one that a phase waits for.
pub open spec fn phase_accepts(phase: Phase, e: &SessionEvent) -> bool {
    match phase {
        Phase::Sending(_) => e is Sent,
        Phase::ReadingSpace | Phase::ReadingId | Phase::Reading => e is Received,
        Phase::Initiating => e is Initiated,
        Phase::Generating(_) => e is Generated,
        Phase::Applying => e is Applied,
        Phase::Done => false,
    }
}

/// What one step does: from phase `p` of a session with role `r` and
/// document `sp`/`id`, the event `e` leads to phase `q` and document
/// `sq`/`iq`, and the action `a`.
pub open spec fn transition(
    r: Role,
    p: Phase,
    sp: Option<Seq<char>>,
    id: Option<Seq<char>>,
    e: &SessionEvent,
    q: Phase,
    sq: Option<Seq<char>>,
    iq: Option<Seq<char>>,
    a: &SessionAction,
) -> bool {
    match (p, e) {
        (Phase::Sending(then), SessionEvent::Sent(Err(m))) => q == Phase::Done && is_network_failure(a, *m),
        (Phase::Sending(then), SessionEvent::Sent(Ok(()))) => match then {
            AfterSend::Initiate => {
                &&& q == Phase::Initiating
                &&& a matches SessionAction::InitiateSync { doc_space: s, doc_id: i }
                &&& Some(s@) == sp
                &&& Some(i@) == id
            },
            AfterSend::Read => q == Phase::Reading && a is Read,
            AfterSend::Stop => q == Phase::Done && (a matches SessionAction::Finish(Ok(()))),
            AfterSend::StopInitialNotGenerated => q == Phase::Done && (a matches SessionAction::Finish(
                Err(Error::InitialSyncMessageNotGenerated),
            )),
        },
        (Phase::ReadingSpace, SessionEvent::Received(Err(m)))
        | (Phase::ReadingId, SessionEvent::Received(Err(m)))
        | (Phase::Reading, SessionEvent::Received(Err(m))) => q == Phase::Done && is_network_failure(a, *m),
        (Phase::ReadingSpace, SessionEvent::Received(Ok(f))) => match f {
            None => q == Phase::Done && (a matches SessionAction::Finish(Err(Error::UnexpectedFinishMessage))),
            Some(d) => if valid_utf8(d@) {
                q == Phase::ReadingId && a is Read && sq == Some(decode_utf8(d@))
            } else {
                q == Phase::Done && (a matches SessionAction::Finish(Err(Error::InvalidUtf8)))
            },
        },
        (Phase::ReadingId, SessionEvent::Received(Ok(f))) => match f {
            None => q == Phase::Done && (a matches SessionAction::Finish(Err(Error::UnexpectedFinishMessage))),
            Some(d) => if valid_utf8(d@) {
                &&& q == Phase::Initiating
                &&& iq == Some(decode_utf8(d@))
                &&& a matches SessionAction::InitiateSync { doc_space: s, doc_id: i }
                &&& Some(s@) == sp
                &&& i@ == decode_utf8(d@)
            } else {
                q == Phase::Done && (a matches SessionAction::Finish(Err(Error::InvalidUtf8)))
            },
        },
        (Phase::Initiating, SessionEvent::Initiated(Err(x))) => q == Phase::Done && is_actor_failure(a, *x),
        (Phase::Initiating, SessionEvent::Initiated(Ok(()))) => if r == Role::Trigger {
            q == Phase::Generating(true) && a is Generate
        } else {
            q == Phase::Reading && a is Read
        },
        (Phase::Generating(first), SessionEvent::Generated(Some(m))) => {
            &&& q == Phase::Sending(AfterSend::Read)
            &&& a matches SessionAction::Send(b)
            &&& b@ == frame_bytes(m@)
        },
        (Phase::Generating(first), SessionEvent::Generated(None)) => {
            &&& q == Phase::Sending(
                if first {
                    AfterSend::StopInitialNotGenerated
                } else {
                    AfterSend::Stop
                },
            )
            &&& a matches SessionAction::Send(b)
            &&& b@ == finish_bytes()
        },
        (Phase::Reading, SessionEvent::Received(Ok(None))) => q == Phase::Done && (a matches SessionAction::Finish(
            Ok(()),
        )),
        (Phase::Reading, SessionEvent::Received(Ok(Some(d)))) => {
            &&& q == Phase::Applying
            &&& a matches SessionAction::Apply(x)
            &&& x@ == d@
        },
        (Phase::Applying, SessionEvent::Applied(Err(x))) => q == Phase::Done && is_actor_failure(a, *x),
        (Phase::Applying, SessionEvent::Applied(Ok(()))) => q == Phase::Generating(false) && a is Generate,
        _ => false,
    }
}

/// One side of a sync conversation.
pub struct SyncSession {
    role: Role,
    phase: Phase,
    doc_space: Option<DocSpace>,
    doc_id: Option<DocId>,
}

/// The action is `Finish(Err(Network(m)))` for the message `m`.
pub open spec fn is_network_failure(a: &SessionAction, m: String) -> bool {
    &&& a matches SessionAction::Finish(Err(Error::Network(x)))
    &&& x == m
}

/// The action is `Finish(Err(SyncActor(e)))`.
pub open spec fn is_actor_failure(a: &SessionAction, e: sync::Error) -> bool {
    &&& a matches SessionAction::Finish(Err(Error::SyncActor(x)))
    &&& x == e
}

impl SyncSession {
    /// The side of the conversation.
    pub closed spec fn spec_role(&self) -> Role {
        self.role
    }

    /// The phase.
    pub closed spec fn spec_phase(&self) -> Phase {
        self.phase
    }

    /// The space's name, once known.
    pub closed spec fn space(&self) -> Option<Seq<char>> {
        match self.doc_space {
            Some(s) => Some(s@),
            None => None,
        }
    }

    /// The id's name, once known.
    pub closed spec fn id(&self) -> Option<Seq<char>> {
        match self.doc_id {
            Some(i) => Some(i@),
            None => None,
        }
    }

    /// The document is known wherever the phase needs it, and only the
    /// listener reads names.
    pub open spec fn wf(&self) -> bool {
        match self.spec_phase() {
            Phase::ReadingSpace => self.spec_role() == Role::Listener && self.space() is None
                && self.id() is None,
            Phase::ReadingId => self.spec_role() == Role::Listener && self.space() is Some
                && self.id() is None,
            Phase::Done => true,
            _ => self.space() is Some && self.id() is Some,
        }
    }

    /// Whether `e` is the event that the session waits for.
    pub open spec fn spec_accepts(&self, e: &SessionEvent) -> bool {
        phase_accepts(self.spec_phase(), e)
    }

    /// The side of the conversation.
    pub fn role(&self) -> (res: Role)
        ensures
            res == self.spec_role(),
    {
        self.role
    }

    /// The phase.
    pub fn phase(&self) -> (res: Phase)
        ensures
            res == self.spec_phase(),
    {
        self.phase
    }

    /// Whether `e` is the event that the session waits for.
    pub fn accepts(&self, e: &SessionEvent) -> (res: bool)
        ensures
            res == self.spec_accepts(e),
    {
        match (self.phase, e) {
            (Phase::Sending(_), SessionEvent::Sent(_)) => true,
            (Phase::ReadingSpace, SessionEvent::Received(_)) => true,
            (Phase::ReadingId, SessionEvent::Received(_)) => true,
            (Phase::Reading, SessionEvent::Received(_)) => true,
            (Phase::Initiating, SessionEvent::Initiated(_)) => true,
            (Phase::Generating(_), SessionEvent::Generated(_)) => true,
            (Phase::Applying, SessionEvent::Applied(_)) => true,
            _ => false,
        }
    }

    /// Whether the conversation is over.
    pub fn is_done(&self) -> (res: bool)
        ensures
            res == (self.spec_phase() == Phase::Done),
    {
        self.phase == Phase::Done
    }

    /// The trigger's side of a conversation about `space`/`id`: it starts by
    /// sending the frames that name the document.
    pub fn trigger(doc_space: DocSpace, doc_id: DocId) -> (res: (SyncSession, SessionAction))
        ensures
            res.0.wf(),
            res.0.spec_role() == Role::Trigger,
            res.0.spec_phase() == Phase::Sending(AfterSend::Initiate),
            res.0.space() == Some(doc_space@),
            res.0.id() == Some(doc_id@),
            res.1 matches SessionAction::Send(b) ==> b@ == doc_address_bytes(doc_space@, doc_id@),
            res.1 is Send,
    {
        let bytes = encode_doc_address(&doc_space, &doc_id);
        (
            SyncSession {
                role: Role::Trigger,
                phase: Phase::Sending(AfterSend::Initiate),
                doc_space: Some(doc_space),
                doc_id: Some(doc_id),
            },
            SessionAction::Send(bytes),
        )
    }

    /// The listener's side of a conversation: it starts by reading the frame
    /// that names the space.
    pub fn listener() -> (res: (SyncSession, SessionAction))
        ensures
            res.0.wf(),
            res.0.spec_role() == Role::Listener,
            res.0.spec_phase() == Phase::ReadingSpace,
            res.0.space() is None,
            res.0.id() is None,
            res.1 is Read,
    {
        (
            SyncSession {
                role: Role::Listener,
                phase: Phase::ReadingSpace,
                doc_space: None,
                doc_id: None,
            },
            SessionAction::Read,
        )
    }

    /// The action that asks for a handle on the session's document.
    fn initiate_action(&self) -> (res: SessionAction)
        requires
            self.space() is Some,
            self.id() is Some,
        ensures
            res is InitiateSync,
            res matches SessionAction::InitiateSync { doc_space: s, doc_id: i } ==> Some(s@) == self.space()
                && Some(i@) == self.id(),
    {
        match (&self.doc_space, &self.doc_id) {
            (Some(s), Some(i)) => SessionAction::InitiateSync { doc_space: s.duplicate(), doc_id: i.duplicate() },
            _ => SessionAction::Read,
        }
    }

    /// Takes in what happened and says what to do next.
    pub fn step(&mut self, e: SessionEvent) -> (a: SessionAction)
        requires
            old(self).wf(),
            old(self).spec_accepts(&e),
        ensures
            final(self).wf(),
            final(self).spec_role() == old(self).spec_role(),
            old(self).space() is Some ==> final(self).space() == old(self).space(),
            old(self).id() is Some ==> final(self).id() == old(self).id(),
            transition(old(self).spec_role(), old(self).spec_phase(), old(self).space(), old(self).id(), &e, final(self).spec_phase(), final(self).space(), final(self).id(), &a),
    {
        match e {
            SessionEvent::Sent(Err(m)) => {
                self.phase = Phase::Done;
                SessionAction::Finish(Err(Error::Network(m)))
            },
            SessionEvent::Sent(Ok(())) => {
                match self.phase {
                    Phase::Sending(AfterSend::Initiate) => {
                        self.phase = Phase::Initiating;
                        self.initiate_action()
                    },
                    Phase::Sending(AfterSend::Read) => {
                        self.phase = Phase::Reading;
                        SessionAction::Read
                    },
                    Phase::Sending(AfterSend::Stop) => {
                        self.phase = Phase::Done;
                        SessionAction::Finish(Ok(()))
                    },
                    _ => {
                        self.phase = Phase::Done;
                        SessionAction::Finish(Err(Error::InitialSyncMessageNotGenerated))
                    },
                }
            },
            SessionEvent::Received(Err(m)) => {
                self.phase = Phase::Done;
                SessionAction::Finish(Err(Error::Network(m)))
            },
            SessionEvent::Received(Ok(f)) => {
                match self.phase {
                    Phase::ReadingSpace => match name_from_frame(f) {
                        Ok(s) => {
                            self.doc_space = Some(DocSpace::from_string(s));
                            self.phase = Phase::ReadingId;
                            SessionAction::Read
                        },
                        Err(err) => {
                            self.phase = Phase::Done;
                            SessionAction::Finish(Err(err))
                        },
                    },
                    Phase::ReadingId => match name_from_frame(f) {
                        Ok(s) => {
                            self.doc_id = Some(DocId::from_string(s));
                            self.phase = Phase::Initiating;
                            self.initiate_action()
                        },
                        Err(err) => {
                            self.phase = Phase::Done;
                            SessionAction::Finish(Err(err))
                        },
                    },
                    _ => match f {
                        None => {
                            self.phase = Phase::Done;
                            SessionAction::Finish(Ok(()))
                        },
                        Some(d) => {
                            self.phase = Phase::Applying;
                            SessionAction::Apply(d)
                        },
                    },
                }
            },
            SessionEvent::Initiated(Err(x)) => {
                self.phase = Phase::Done;
                SessionAction::Finish(Err(Error::SyncActor(x)))
            },
            SessionEvent::Initiated(Ok(())) => {
                match self.role {
                    Role::Trigger => {
                        self.phase = Phase::Generating(true);
                        SessionAction::Generate
                    },
                    Role::Listener => {
                        self.phase = Phase::Reading;
                        SessionAction::Read
                    },
                }
            },
            SessionEvent::Generated(Some(m)) => {
                self.phase = Phase::Sending(AfterSend::Read);
                SessionAction::Send(encode_sync_msg(m.as_slice()))
            },
            SessionEvent::Generated(None) => {
                let first = match self.phase {
                    Phase::Generating(f) => f,
                    _ => false,
                };
                self.phase = Phase::Sending(
                    if first {
                        AfterSend::StopInitialNotGenerated
                    } else {
                        AfterSend::Stop
                    },
                );
                SessionAction::Send(encode_finish())
            },
            SessionEvent::Applied(Err(x)) => {
                self.phase = Phase::Done;
                SessionAction::Finish(Err(Error::SyncActor(x)))
            },
            SessionEvent::Applied(Ok(())) => {
                self.phase = Phase::Generating(false);
                SessionAction::Generate
            },
        }
    }
}

/// A finished conversation takes no more events.
pub proof fn lemma_done_is_final(e: &SessionEvent)
    ensures
        !phase_accepts(Phase::Done, e),
{
}

/// Every step that sends writes whole frames: one frame that carries a
/// message, or the finish frame.
pub proof fn lemma_sends_are_frames(
    r: Role,
    p: Phase,
    sp: Option<Seq<char>>,
    id: Option<Seq<char>>,
    e: &SessionEvent,
    q: Phase,
    sq: Option<Seq<char>>,
    iq: Option<Seq<char>>,
    a: &SessionAction,
)
    requires
        transition(r, p, sp, id, e, q, sq, iq, a),
    ensures
        a matches SessionAction::Send(b) ==> exists|m: Seq<u8>| b@ == frame_bytes(m),
{
    if let SessionAction::Send(b) = a {
        if let SessionEvent::Generated(Some(m)) = e {
            assert(b@ == frame_bytes(m@));
        } else {
            assert(b@ == finish_bytes());
            assert(frame_bytes(Seq::<u8>::empty()) =~= finish_bytes());
        }
    }
}

/// A conversation ends well only where the peer sent the finish frame, or
/// where this side, with nothing more to say, has sent it.
pub proof fn lemma_success_only_at_finish(
    r: Role,
    p: Phase,
    sp: Option<Seq<char>>,
    id: Option<Seq<char>>,
    e: &SessionEvent,
    q: Phase,
    sq: Option<Seq<char>>,
    iq: Option<Seq<char>>,
    a: &SessionAction,
)
    requires
        transition(r, p, sp, id, e, q, sq, iq, a),
        a matches SessionAction::Finish(Ok(())),
    ensures
        (p == Phase::Reading && e matches SessionEvent::Received(Ok(None))) || (p == Phase::Sending(
            AfterSend::Stop,
        ) && e matches SessionEvent::Sent(Ok(()))),
{
}

/// A side ends its conversation with every action `Finish`, and only there
/// does the conversation become done.
pub proof fn lemma_done_iff_finish(
    r: Role,
    p: Phase,
    sp: Option<Seq<char>>,
    id: Option<Seq<char>>,
    e: &SessionEvent,
    q: Phase,
    sq: Option<Seq<char>>,
    iq: Option<Seq<char>>,
    a: &SessionAction,
)
    requires
        transition(r, p, sp, id, e, q, sq, iq, a),
    ensures
        (q == Phase::Done) == (a is Finish),
{
}

/// Only the trigger's first message can be missing: the conversation fails
/// with `InitialSyncMessageNotGenerated` exactly when the handle of the
/// trigger had no first message.
pub proof fn lemma_initial_message_required(
    r: Role,
    p: Phase,
    sp: Option<Seq<char>>,
    id: Option<Seq<char>>,
    e: &SessionEvent,
    q: Phase,
    sq: Option<Seq<char>>,
    iq: Option<Seq<char>>,
    a: &SessionAction,
)
    requires
        transition(r, p, sp, id, e, q, sq, iq, a),
    ensures
        (p == Phase::Generating(true) && e matches SessionEvent::Generated(None)) ==> q == Phase::Sending(
            AfterSend::StopInitialNotGenerated,
        ),
        (a matches SessionAction::Finish(Err(Error::InitialSyncMessageNotGenerated))) ==> p
            == Phase::Sending(AfterSend::StopInitialNotGenerated),
        q == Phase::Generating(true) ==> r == Role::Trigger,
{
}

/// Only the first message of the trigger, right after the handle was
/// handed out, can be the one whose absence fails the conversation: every
/// other generation step (after a peer's message was applied, by either
/// side) is not a first one.
pub proof fn lemma_first_generation_only_after_initiation(
    r: Role,
    p: Phase,
    sp: Option<Seq<char>>,
    id: Option<Seq<char>>,
    e: &SessionEvent,
    q: Phase,
    sq: Option<Seq<char>>,
    iq: Option<Seq<char>>,
    a: &SessionAction,
)
    requires
        transition(r, p, sp, id, e, q, sq, iq, a),
    ensures
        q == Phase::Generating(true) ==> p == Phase::Initiating && r == Role::Trigger,
        p == Phase::Applying && q is Generating ==> q == Phase::Generating(false),
{
}

/// Once a peer's message has been applied, a side whose handle has nothing
/// more to say sends the finish frame and, when it has gone out, ends the
/// conversation successfully, whichever side it is.
pub proof fn lemma_nothing_after_apply_ends_well(
    r: Role,
    sp: Option<Seq<char>>,
    id: Option<Seq<char>>,
    q1: Phase,
    s1: Option<Seq<char>>,
    i1: Option<Seq<char>>,
    a1: &SessionAction,
    q2: Phase,
    s2: Option<Seq<char>>,
    i2: Option<Seq<char>>,
    a2: &SessionAction,
    q3: Phase,
    s3: Option<Seq<char>>,
    i3: Option<Seq<char>>,
    a3: &SessionAction,
)
    requires
        transition(r, Phase::Applying, sp, id, &SessionEvent::Applied(Ok(())), q1, s1, i1, a1),
        transition(r, q1, s1, i1, &SessionEvent::Generated(None), q2, s2, i2, a2),
        transition(r, q2, s2, i2, &SessionEvent::Sent(Ok(())), q3, s3, i3, a3),
    ensures
        a1 is Generate,
        a2 matches SessionAction::Send(b) && b@ == finish_bytes(),
        a3 matches SessionAction::Finish(Ok(())),
        q3 == Phase::Done,
{
}

} // verus!
