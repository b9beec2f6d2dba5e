//! The peer protocols: the errors of a conversation, and the frames that name
//! a document at the start of a sync conversation.
use vstd::prelude::*;

use crate::doc::{DocId, DocSpace};
use crate::frame::{decode_frame, decode_frame_spec, encode_frame, frame_bytes, lemma_decode_frame_bytes};
use vstd::utf8::{decode_utf8, encode_utf8, valid_utf8};

pub mod echo;
pub mod sync;

verus! {

/// Errors of a conversation with a peer.
#[derive(Debug)]
pub enum Error {
    /// Reading or writing the stream failed.
    Network(String),
    /// The sync actor refused a request.
    SyncActor(crate::sync::Error),
    /// The trigger had no first sync message to send.
    InitialSyncMessageNotGenerated,
    /// The peer sent the finish frame where a document name was due.
    UnexpectedFinishMessage,
    /// A document name was not valid UTF-8.
    InvalidUtf8,
}

/// The bytes that name the document `space`/`id`: a frame with the space's
/// name, then a frame with the id's.
pub open spec fn doc_address_bytes(space: Seq<char>, id: Seq<char>) -> Seq<u8> {
    frame_bytes(encode_utf8(space)) + frame_bytes(encode_utf8(id))
}

/// The frames that name `space`/`id`.
pub fn encode_doc_address(space: &DocSpace, id: &DocId) -> (res: Vec<u8>)
    ensures
        res@ == doc_address_bytes(space@, id@),
{
    let mut out = encode_frame(space.as_bytes());
    let mut second = encode_frame(id.as_bytes());
    out.append(&mut second);
    out
}

/// The name that a frame carries: `UnexpectedFinishMessage` for the finish
/// frame, `InvalidUtf8` where the data is not UTF-8.
pub fn name_from_frame(frame: Option<Vec<u8>>) -> (res: Result<String, Error>)
    ensures
        match frame {
            None => res matches Err(Error::UnexpectedFinishMessage),
            Some(d) => if valid_utf8(d@) {
                res matches Ok(s) && s@ == decode_utf8(d@)
            } else {
                res matches Err(Error::InvalidUtf8)
            },
        },
{
    match frame {
        None => Err(Error::UnexpectedFinishMessage),
        Some(d) => match crate::doc::string_from_utf8(d.as_slice()) {
            Ok(s) => Ok(s),
            Err(_) => Err(Error::InvalidUtf8),
        },
    }
}

/// How reading a document address from the front of a buffer ends.
pub enum AddressRead {
    /// The two frames have not fully arrived.
    Incomplete,
    /// A frame was the finish frame.
    UnexpectedFinish,
    /// A name was not valid UTF-8.
    InvalidUtf8,
    /// The space's name, the id's name, and the bytes that both frames take.
    Address(Seq<char>, Seq<char>, nat),
}

/// How reading a document address from the front of `buf` ends: the space's
/// frame is read and checked before the id's.
#[verifier::opaque]
pub open spec fn read_doc_address(buf: Seq<u8>) -> AddressRead {
    match decode_frame_spec(buf) {
        None => AddressRead::Incomplete,
        Some((None, _)) => AddressRead::UnexpectedFinish,
        Some((Some(a), n1)) => if !valid_utf8(a) {
            AddressRead::InvalidUtf8
        } else {
            match decode_frame_spec(buf.subrange(n1 as int, buf.len() as int)) {
                None => AddressRead::Incomplete,
                Some((None, _)) => AddressRead::UnexpectedFinish,
                Some((Some(b), n2)) => if !valid_utf8(b) {
                    AddressRead::InvalidUtf8
                } else {
                    AddressRead::Address(decode_utf8(a), decode_utf8(b), n1 + n2)
                },
            }
        },
    }
}

/// Reads the document address at the front of `buf`: `Ok(None)` while its
/// two frames have not arrived, else the address and the bytes it takes, or
/// the error that reading it meets first.
pub fn decode_doc_address(buf: &[u8]) -> (res: Result<Option<(DocSpace, DocId, usize)>, Error>)
    ensures
        match read_doc_address(buf@) {
            AddressRead::Incomplete => res matches Ok(None),
            AddressRead::UnexpectedFinish => res matches Err(Error::UnexpectedFinishMessage),
            AddressRead::InvalidUtf8 => res matches Err(Error::InvalidUtf8),
            AddressRead::Address(s, i, n) => res matches Ok(Some((rs, ri, used))) && rs@ == s
                && ri@ == i && used == n,
        },
{
    reveal(read_doc_address);
    reveal(decode_frame_spec);
    let (first, used1) = match decode_frame(buf) {
        None => return Ok(None),
        Some(f) => f,
    };
    let space = DocSpace::from_string(name_from_frame(first)?);
    let rest = vstd::slice::slice_subrange(buf, used1, buf.len());
    let (second, used2) = match decode_frame(rest) {
        None => return Ok(None),
        Some(f) => f,
    };
    let id = DocId::from_string(name_from_frame(second)?);
    Ok(Some((space, id, used1 + used2)))
}

/// Reading back the frames that name a document gives that document and the
/// number of bytes that the frames take, whatever follows them.
#[verifier::spinoff_prover]
pub proof fn lemma_doc_address_roundtrip(space: Seq<char>, id: Seq<char>, rest: Seq<u8>)
    requires
        encode_utf8(space).len() > 0,
        encode_utf8(id).len() > 0,
        encode_utf8(space).len() <= u64::MAX,
        encode_utf8(id).len() <= u64::MAX,
    ensures
        read_doc_address(doc_address_bytes(space, id) + rest) == AddressRead::Address(
            space,
            id,
            (16 + encode_utf8(space).len() + encode_utf8(id).len()) as nat,
        ),
{
    let a = encode_utf8(space);
    let b = encode_utf8(id);
    let buf = doc_address_bytes(space, id) + rest;
    let n1 = (8 + a.len()) as nat;
    let n2 = (8 + b.len()) as nat;
    assert(buf == frame_bytes(a) + frame_bytes(b) + rest);
    lemma_two_frames(a, b, rest);
    assert(decode_frame_spec(buf) == Some((Some(a), n1)));
    assert(decode_frame_spec(buf.subrange(n1 as int, buf.len() as int)) == Some((Some(b), n2)));
    vstd::utf8::encode_utf8_valid_utf8(space);
    vstd::utf8::encode_utf8_valid_utf8(id);
    vstd::utf8::encode_utf8_decode_utf8(space);
    vstd::utf8::encode_utf8_decode_utf8(id);
    lemma_read_two_valid(buf, a, b, n1, n2);
    assert(read_doc_address(buf) == AddressRead::Address(decode_utf8(a), decode_utf8(b), n1 + n2));
}

proof fn lemma_two_frames(a: Seq<u8>, b: Seq<u8>, rest: Seq<u8>)
    requires
        a.len() > 0,
        b.len() > 0,
        a.len() <= u64::MAX,
        b.len() <= u64::MAX,
    ensures
        decode_frame_spec(frame_bytes(a) + frame_bytes(b) + rest) == Some((Some(a), (8 + a.len()) as nat)),
        decode_frame_spec(
            (frame_bytes(a) + frame_bytes(b) + rest).subrange(
                (8 + a.len()) as int,
                (frame_bytes(a) + frame_bytes(b) + rest).len() as int,
            ),
        ) == Some((Some(b), (8 + b.len()) as nat)),
{
    let buf = frame_bytes(a) + frame_bytes(b) + rest;
    let tail = frame_bytes(b) + rest;
    assert(buf =~= frame_bytes(a) + tail);
    lemma_decode_frame_bytes(a, tail);
    assert(buf.subrange((8 + a.len()) as int, buf.len() as int) =~= tail);
    lemma_decode_frame_bytes(b, rest);
}

proof fn lemma_read_two_valid(buf: Seq<u8>, a: Seq<u8>, b: Seq<u8>, n1: nat, n2: nat)
    requires
        decode_frame_spec(buf) == Some((Some(a), n1)),
        decode_frame_spec(buf.subrange(n1 as int, buf.len() as int)) == Some((Some(b), n2)),
        valid_utf8(a),
        valid_utf8(b),
    ensures
        read_doc_address(buf) == AddressRead::Address(decode_utf8(a), decode_utf8(b), n1 + n2),
{
    reveal(read_doc_address);
    reveal(decode_frame_spec);
}

} // verus!
