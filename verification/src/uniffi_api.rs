//! The checks that the mobile API makes before it starts a node.
use vstd::prelude::*;

use crate::config::{hex_decode_spec, secret_key_from_hex, SecretKey};
use crate::doc::{string_from_utf8, utf8_error_message};
use crate::models::NodeId;
use crate::ticket::BlobTicketError;
use vstd::utf8::{decode_utf8, encode_utf8, valid_utf8};

verus! {

/// Errors of the mobile API.
#[derive(Debug)]
pub enum AtmanError {
    InvalidIdentity,
    InvalidNetworkKey,
    InvalidRelayUrl(String),
    InvalidNodeId(String),
    InvalidTicket(String),
    InvalidUtf8(String),
    ChannelClosed,
    Internal(String),
}

/// The hex text `s` stands for a 32-byte key.
pub open spec fn is_key_hex(s: Seq<char>) -> bool {
    hex_decode_spec(encode_utf8(s)) matches Ok(d) && d.len() == 32
}

/// The identity and the network key that their hex texts stand for:
/// `InvalidIdentity` where the identity is not a 32-byte key in hex, else
/// `InvalidNetworkKey` where the network key is not.
pub fn parse_keys(identity_hex: &String, network_key_hex: &String) -> (res: Result<(SecretKey, SecretKey), AtmanError>)
    ensures
        !is_key_hex(identity_hex@) ==> res matches Err(AtmanError::InvalidIdentity),
        is_key_hex(identity_hex@) && !is_key_hex(network_key_hex@) ==> res matches Err(
            AtmanError::InvalidNetworkKey,
        ),
        is_key_hex(identity_hex@) && is_key_hex(network_key_hex@) ==> (res matches Ok((i, n))
            && hex_decode_spec(encode_utf8(identity_hex@)) == Ok::<Seq<u8>, crate::config::HexError>(i@)
            && hex_decode_spec(encode_utf8(network_key_hex@)) == Ok::<Seq<u8>, crate::config::HexError>(n@)),
{
    let identity = match secret_key_from_hex(identity_hex.as_str().as_bytes()) {
        Ok(k) => k,
        Err(_) => return Err(AtmanError::InvalidIdentity),
    };
    let network_key = match secret_key_from_hex(network_key_hex.as_str().as_bytes()) {
        Ok(k) => k,
        Err(_) => return Err(AtmanError::InvalidNetworkKey),
    };
    Ok((identity, network_key))
}

/// The keys and the custom relay of a client, given the two keys' hex texts
/// and, where a custom relay is given, whether its URL parsed (`Ok` with the
/// URL's text, or `Err` with why not): `InvalidIdentity` first,
/// `InvalidNetworkKey` next, then `InvalidRelayUrl` with the parse error.
pub fn parse_client_config(
    identity_hex: &String,
    network_key_hex: &String,
    relay: Option<Result<String, String>>,
) -> (res: Result<(SecretKey, SecretKey, Option<String>), AtmanError>)
    ensures
        !is_key_hex(identity_hex@) ==> res matches Err(AtmanError::InvalidIdentity),
        is_key_hex(identity_hex@) && !is_key_hex(network_key_hex@) ==> res matches Err(
            AtmanError::InvalidNetworkKey,
        ),
        is_key_hex(identity_hex@) && is_key_hex(network_key_hex@) ==> match relay {
            Some(Err(m)) => res matches Err(AtmanError::InvalidRelayUrl(x)) && x@ == m@,
            Some(Ok(u)) => res matches Ok((i, n, Some(r))) && r@ == u@
                && hex_decode_spec(encode_utf8(identity_hex@)) == Ok::<Seq<u8>, crate::config::HexError>(i@)
                && hex_decode_spec(encode_utf8(network_key_hex@)) == Ok::<Seq<u8>, crate::config::HexError>(n@),
            None => res matches Ok((i, n, None))
                && hex_decode_spec(encode_utf8(identity_hex@)) == Ok::<Seq<u8>, crate::config::HexError>(i@)
                && hex_decode_spec(encode_utf8(network_key_hex@)) == Ok::<Seq<u8>, crate::config::HexError>(n@),
        },
{
    let (identity, network_key) = match parse_keys(identity_hex, network_key_hex) {
        Ok(k) => k,
        Err(e) => return Err(e),
    };
    match relay {
        None => Ok((identity, network_key, None)),
        Some(Ok(u)) => Ok((identity, network_key, Some(u))),
        Some(Err(m)) => Err(AtmanError::InvalidRelayUrl(m)),
    }
}

/// What a request answered through a reply channel gives: `ChannelClosed`
/// where no reply came, `Internal` with the error's text where the node
/// refused, else the answer.
pub fn reply_outcome<T>(reply: Option<Result<T, String>>) -> (res: Result<T, AtmanError>)
    ensures
        match reply {
            None => res matches Err(AtmanError::ChannelClosed),
            Some(Err(m)) => res matches Err(AtmanError::Internal(x)) && x@ == m@,
            Some(Ok(v)) => res == Ok::<T, AtmanError>(v),
        },
{
    match reply {
        None => Err(AtmanError::ChannelClosed),
        Some(Err(m)) => Err(AtmanError::Internal(m)),
        Some(Ok(v)) => Ok(v),
    }
}

/// The error for a ticket text that could not be read.
pub fn ticket_error(e: BlobTicketError) -> (res: AtmanError)
    ensures
        res matches AtmanError::InvalidTicket(m) && (e == BlobTicketError::MissingPrefix ==> m@
            == "ticket must start with `atman-blob1`"@) && (e == BlobTicketError::BadBase32 ==> m@
            == "ticket body is not valid base32-nopad"@) && (e == BlobTicketError::BadPayload ==> m@
            == "ticket payload is not a valid atman blob ticket"@),
{
    AtmanError::InvalidTicket(e.message())
}

/// The node id that its text parsed as, or `InvalidNodeId` with why not.
pub fn node_id_outcome(parsed: Result<NodeId, String>) -> (res: Result<NodeId, AtmanError>)
    ensures
        match parsed {
            Ok(n) => res == Ok::<NodeId, AtmanError>(n),
            Err(m) => res matches Err(AtmanError::InvalidNodeId(x)) && x@ == m@,
        },
{
    match parsed {
        Ok(n) => Ok(n),
        Err(m) => Err(AtmanError::InvalidNodeId(m)),
    }
}

/// What the mobile API answers for the transfer count of a ticket, given the
/// node's reply: `ChannelClosed` where none came, else the count, zero for an
/// unknown ticket.
pub fn transfer_count_outcome(reply: Option<Option<u64>>) -> (res: Result<u64, AtmanError>)
    ensures
        match reply {
            None => res matches Err(AtmanError::ChannelClosed),
            Some(None) => res == Ok::<u64, AtmanError>(0),
            Some(Some(n)) => res == Ok::<u64, AtmanError>(n),
        },
{
    match reply {
        None => Err(AtmanError::ChannelClosed),
        Some(c) => Ok(reported_transfer_count(c)),
    }
}

/// What the mobile API answers for reading a document, given the node's
/// reply: `ChannelClosed` where none came, no document where the node
/// refused, `Internal` where its JSON form could not be made, else the JSON
/// text, or `InvalidUtf8` with why the JSON bytes are not text.
pub fn sync_get_outcome(reply: Option<Result<Result<Vec<u8>, String>, String>>) -> (res: Result<Option<String>, AtmanError>)
    ensures
        match reply {
            None => res matches Err(AtmanError::ChannelClosed),
            Some(Err(_)) => res matches Ok(None),
            Some(Ok(Err(m))) => res matches Err(AtmanError::Internal(x)) && x@ == m@,
            Some(Ok(Ok(b))) => if valid_utf8(b@) {
                res matches Ok(Some(s)) && s@ == decode_utf8(b@)
            } else {
                res matches Err(AtmanError::InvalidUtf8(x)) && x@ == utf8_error_message(b@)
            },
        },
{
    match reply {
        None => Err(AtmanError::ChannelClosed),
        Some(Err(_)) => Ok(None),
        Some(Ok(Err(m))) => Err(AtmanError::Internal(m)),
        Some(Ok(Ok(b))) => match string_from_utf8(b.as_slice()) {
            Ok(s) => Ok(Some(s)),
            Err(m) => Err(AtmanError::InvalidUtf8(m)),
        },
    }
}

/// The period of the periodic sync in seconds: none where it is zero.
pub fn sync_interval_secs(secs: u64) -> (res: Option<u64>)
    ensures
        secs == 0 ==> res is None,
        secs != 0 ==> res == Some(secs),
{
    if secs == 0 {
        None
    } else {
        Some(secs)
    }
}

/// The number of distinct receivers that the API reports: zero for an
/// unknown ticket.
pub fn reported_transfer_count(count: Option<u64>) -> (res: u64)
    ensures
        res == match count {
            Some(n) => n,
            None => 0,
        },
{
    match count {
        Some(n) => n,
        None => 0,
    }
}

} // verus!
