//! The echo protocol: the listener sends every frame back as it came, until
//! the finish frame.
use vstd::prelude::*;

use crate::frame::{encode_frame, frame_bytes};
use crate::models::NodeId;
use crate::text::{decimal, push_decimal};

verus! {

/// What the echo listener reports about a connection.
pub enum Event {
    /// A peer connected.
    Accepted { node_id: NodeId },
    /// Bytes were sent back to the peer.
    Echoed { node_id: NodeId, bytes_sent: u64 },
    /// The connection ended, with the error that ended it, if any.
    Closed { node_id: NodeId, error: Option<String> },
}

/// What an accepting endpoint reports about a connection.
pub enum AcceptEvent {
    /// A peer connected.
    Accepted { node_id: NodeId },
    /// Bytes were sent back to the peer.
    Echoed { node_id: NodeId, bytes_sent: u64 },
    /// The connection ended, with the error that ended it, if any.
    Closed { node_id: NodeId, error: Option<String> },
}

/// What the echo listener answers to a frame: the same frame for data, and
/// nothing (the conversation ends) for the finish frame.
pub fn echo_reply(frame: Option<&[u8]>) -> (res: Option<Vec<u8>>)
    ensures
        match frame {
            None => res is None,
            Some(d) => res matches Some(r) && r@ == frame_bytes(d@),
        },
{
    match frame {
        None => None,
        Some(d) => Some(encode_frame(d)),
    }
}

/// How many greetings the connecting side sends before the finish frame.
pub const ECHO_ROUNDS: u64 = 10;

/// The text of greeting `i`: `Hello echo ` and `i` in decimal.
pub open spec fn greeting_text(i: nat) -> Seq<char> {
    seq!['H', 'e', 'l', 'l', 'o', ' ', 'e', 'c', 'h', 'o', ' '] + decimal(i)
}

/// The greeting that the connecting side sends in round `i`.
pub fn echo_greeting(i: u64) -> (res: String)
    ensures
        res@ == greeting_text(i as nat),
{
    let mut out = crate::doc::owned_str("Hello echo ");
    proof {
        reveal_strlit("Hello echo ");
    }
    push_decimal(&mut out, i);
    out
}

/// The frames that the connecting side sends: greetings `0` to
/// `ECHO_ROUNDS - 1`, each in a frame, in order.
pub fn echo_greeting_frames() -> (res: Vec<Vec<u8>>)
    ensures
        res@.len() == ECHO_ROUNDS,
        forall|i: int|
            0 <= i < ECHO_ROUNDS ==> #[trigger] res@[i]@ == frame_bytes(
                vstd::utf8::encode_utf8(greeting_text(i as nat)),
            ),
{
    let mut frames: Vec<Vec<u8>> = Vec::new();
    let mut i: u64 = 0;
    while i < ECHO_ROUNDS
        invariant
            i <= ECHO_ROUNDS,
            frames@.len() == i,
            forall|j: int|
                0 <= j < i ==> #[trigger] frames@[j]@ == frame_bytes(
                    vstd::utf8::encode_utf8(greeting_text(j as nat)),
                ),
        decreases ECHO_ROUNDS - i,
    {
        let g = echo_greeting(i);
        frames.push(encode_frame(g.as_str().as_bytes()));
        i = i + 1;
    }
    frames
}

} // verus!
