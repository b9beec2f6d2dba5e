//! The text form of a blob ticket: a fixed prefix, then the ticket's payload
//! in unpadded base32, lower case.
//!
//! The payload itself (the serialized ticket) is made and read outside the
//! library; here it is a byte string.
use vstd::prelude::*;

use crate::frame::opt_bytes_view;
use crate::text::push_char;
use vstd::utf8::{encode_utf8, is_ascii_chars};

verus! {

/// The prefix of every ticket's text.
pub const PREFIX: &'static str = "atman-blob1";

/// The bytes of [`PREFIX`].
pub open spec fn prefix_bytes() -> Seq<u8> {
    seq![97u8, 116u8, 109u8, 97u8, 110u8, 45u8, 98u8, 108u8, 111u8, 98u8, 49u8]
}

/// The unpadded base32 text of `data` (RFC 4648 alphabet, upper case), as the
/// `data-encoding` crate writes it.
pub uninterp spec fn base32_nopad_text(data: Seq<u8>) -> Seq<char>;

/// The data that the unpadded base32 text `text` stands for, as the
/// `data-encoding` crate reads it; `None` where the text is not valid.
pub uninterp spec fn base32_nopad_data(text: Seq<u8>) -> Option<Seq<u8>>;

/// A symbol of the base32 alphabet.
pub open spec fn is_base32_symbol(c: char) -> bool {
    ('A' <= c && c <= 'Z') || ('2' <= c && c <= '7')
}

/// The characters of `chars` as bytes.
pub open spec fn char_bytes(chars: Seq<char>) -> Seq<u8> {
    chars.map_values(|c: char| c as u8)
}

/// `data` in unpadded base32.
///
/// Calls `data_encoding::BASE32_NOPAD.encode`, which its documentation says
/// writes the symbols `A`-`Z`, `2`-`7` and which the decoder reads back to the
/// same data ("encoding followed by decoding gives the initial data"); its
/// source makes the text `encode_len` long, which for unpadded base32 is
/// eight bits per byte rounded up to whole five-bit symbols. The text itself
/// is named, not stated.
#[verifier::external_body]
fn base32_nopad_encode(data: &[u8]) -> (res: String)
    requires
        data@.len() <= usize::MAX / 512,
    ensures
        res@ == base32_nopad_text(data@),
        res@.len() == (8 * data@.len() + 4) / 5,
        forall|i: int| 0 <= i < res@.len() ==> is_base32_symbol(#[trigger] res@[i]),
        base32_nopad_data(char_bytes(res@)) == Some(data@),
{
    data_encoding::BASE32_NOPAD.encode(data)
}

/// The data that the unpadded base32 text `text` stands for; `None` where it
/// is not valid.
///
/// Calls `data_encoding::BASE32_NOPAD.decode` and keeps whether it succeeded
/// and what it returned; the result is named, not stated.
#[verifier::external_body]
fn base32_nopad_decode(text: &[u8]) -> (res: Option<Vec<u8>>)
    requires
        text@.len() <= usize::MAX / 8,
    ensures
        opt_bytes_view(res) == base32_nopad_data(text@),
{
    data_encoding::BASE32_NOPAD.decode(text).ok()
}

/// `c` in lower case where it is an ASCII capital letter.
pub open spec fn lower_ascii(c: char) -> char {
    if 'A' <= c && c <= 'Z' {
        ((c as u32) + 32) as char
    } else {
        c
    }
}

/// `c` in upper case where it is an ASCII small letter.
pub open spec fn upper_char(c: char) -> char {
    if 'a' <= c && c <= 'z' {
        ((c as u32) - 32) as char
    } else {
        c
    }
}

/// A symbol of the lower-case base32 alphabet.
pub open spec fn is_lower_base32_symbol(c: char) -> bool {
    ('a' <= c && c <= 'z') || ('2' <= c && c <= '7')
}

/// A ticket's text with the part after the prefix in upper case.
pub open spec fn upper_ticket_body(text: Seq<char>) -> Seq<char> {
    text.take(11) + text.skip(11).map_values(|c: char| upper_char(c))
}

/// `b` in upper case where it is an ASCII small letter.
pub open spec fn upper_ascii(b: u8) -> u8 {
    if 97 <= b && b <= 122 {
        (b - 32) as u8
    } else {
        b
    }
}

/// The text of the ticket whose payload is `payload`.
pub open spec fn ticket_text(payload: Seq<u8>) -> Seq<char> {
    PREFIX@ + base32_nopad_text(payload).map_values(|c: char| lower_ascii(c))
}

/// Why a ticket's text could not be read.
#[derive(PartialEq, Eq, Structural, Clone, Copy, Debug)]
pub enum BlobTicketError {
    /// The text does not start with [`PREFIX`].
    MissingPrefix,
    /// The rest of the text is not unpadded base32.
    BadBase32,
    /// The payload is not a serialized ticket.
    BadPayload,
}

impl BlobTicketError {
    /// The error in words.
    pub fn message(&self) -> (res: String)
        ensures
            *self == BlobTicketError::MissingPrefix ==> res@ == "ticket must start with `atman-blob1`"@,
            *self == BlobTicketError::BadBase32 ==> res@ == "ticket body is not valid base32-nopad"@,
            *self == BlobTicketError::BadPayload ==> res@ == "ticket payload is not a valid atman blob ticket"@,
    {
        match self {
            BlobTicketError::MissingPrefix => crate::doc::owned_str("ticket must start with `atman-blob1`"),
            BlobTicketError::BadBase32 => crate::doc::owned_str("ticket body is not valid base32-nopad"),
            BlobTicketError::BadPayload => crate::doc::owned_str("ticket payload is not a valid atman blob ticket"),
        }
    }
}

/// What reading a ticket from its UTF-8 bytes `text` gives: its payload, or
/// why it could not be read.
pub open spec fn ticket_payload(text: Seq<u8>) -> Result<Seq<u8>, BlobTicketError> {
    if text.len() < 11 || text.take(11) != prefix_bytes() {
        Err(BlobTicketError::MissingPrefix)
    } else {
        match base32_nopad_data(text.skip(11).map_values(|b: u8| upper_ascii(b))) {
            Some(d) => Ok(d),
            None => Err(BlobTicketError::BadBase32),
        }
    }
}

/// The text of the ticket whose payload is `payload`.
pub fn encode_ticket(payload: &[u8]) -> (res: String)
    requires
        payload@.len() <= usize::MAX / 512,
    ensures
        res@ == ticket_text(payload@),
        res@.len() == 11 + (8 * payload@.len() + 4) / 5,
        res@.take(11) == PREFIX@,
        forall|i: int| 11 <= i < res@.len() ==> is_lower_base32_symbol(#[trigger] res@[i]),
        encode_utf8(res@).len() == res@.len(),
        encode_utf8(res@).len() <= usize::MAX / 8,
        ticket_payload(encode_utf8(res@)) == Ok::<Seq<u8>, BlobTicketError>(payload@),
        ticket_payload(encode_utf8(upper_ticket_body(res@))) == Ok::<Seq<u8>, BlobTicketError>(payload@),
{
    let enc = base32_nopad_encode(payload);
    let ghost t = enc@;
    let mut out = crate::doc::owned_str(PREFIX);
    let body = enc.as_str();
    proof {
        assert(is_ascii_chars(t));
        vstd::utf8::is_ascii_chars_encode_utf8(t);
    }
    let bytes = body.as_bytes();
    let mut i: usize = 0;
    while i < bytes.len()
        invariant
            bytes@ == encode_utf8(t),
            bytes@.len() == t.len(),
            forall|j: int| 0 <= j < t.len() ==> #[trigger] t[j] as u8 == bytes@[j],
            forall|j: int| 0 <= j < t.len() ==> is_base32_symbol(#[trigger] t[j]),
            i <= bytes@.len(),
            out@ == PREFIX@ + t.take(i as int).map_values(|c: char| lower_ascii(c)),
        decreases bytes@.len() - i,
    {
        let b = bytes[i];
        let c: char = if 65 <= b && b <= 90 {
            (b + 32) as char
        } else {
            b as char
        };
        proof {
            let tc = t[i as int];
            assert(tc as u8 == b);
            assert(is_base32_symbol(tc));
            assert(c == lower_ascii(tc)) by {
                assert(('A' <= tc && tc <= 'Z') == (65 <= b && b <= 90));
            }
        }
        push_char(&mut out, c);
        i = i + 1;
        proof {
            assert(t.take(i as int).map_values(|c: char| lower_ascii(c)) =~= t.take(
                (i - 1) as int,
            ).map_values(|c: char| lower_ascii(c)).push(lower_ascii(t[i - 1])));
        }
    }
    proof {
        reveal_strlit("atman-blob1");
        assert(t.take(t.len() as int) =~= t);
        lemma_ticket_text_reads_back(t, payload@);
        let lt = t.map_values(|c: char| lower_ascii(c));
        assert(out@.take(11) =~= PREFIX@);
        assert(out@.skip(11) =~= lt);
        assert forall|i: int| 11 <= i < out@.len() implies is_lower_base32_symbol(#[trigger] out@[i]) by {
            assert(out@[i] == lt[i - 11]);
            assert(is_base32_symbol(t[i - 11]));
        }
        assert(upper_ticket_body(out@) =~= PREFIX@ + t) by {
            let ut = lt.map_values(|c: char| upper_char(c));
            assert forall|j: int| 0 <= j < t.len() implies #[trigger] ut[j] == t[j] by {
                assert(is_base32_symbol(t[j]));
            }
            assert(ut =~= t);
        }
        lemma_upper_ticket_text_reads_back(t, payload@);
        assert(is_ascii_chars(out@)) by {
            assert forall|j: int| 0 <= j < out@.len() implies '\0' <= #[trigger] out@[j] <= '\u{7f}' by {
                if j >= 11 {
                    assert(out@[j] == lt[j - 11]);
                    assert(is_base32_symbol(t[j - 11]));
                }
            }
        }
        vstd::utf8::is_ascii_chars_encode_utf8(out@);
        lemma_ticket_text_fits(payload@.len());
    }
    out
}

/// The text of a ticket that can be made is short enough to be read back:
/// its UTF-8 length meets what [`decode_ticket`] requires.
pub proof fn lemma_ticket_text_fits(payload_len: nat)
    requires
        payload_len <= usize::MAX / 512,
    ensures
        11 + (8 * payload_len + 4) / 5 <= usize::MAX / 8,
{
    assert((8 * payload_len + 4) / 5 <= 2 * payload_len + 1);
}

/// The text made of the prefix and an upper-case base32 text reads back as
/// the data of that base32 text.
proof fn lemma_upper_ticket_text_reads_back(t: Seq<char>, payload: Seq<u8>)
    requires
        forall|j: int| 0 <= j < t.len() ==> is_base32_symbol(#[trigger] t[j]),
        base32_nopad_data(char_bytes(t)) == Some(payload),
    ensures
        ticket_payload(encode_utf8(PREFIX@ + t)) == Ok::<Seq<u8>, BlobTicketError>(payload),
{
    reveal_strlit("atman-blob1");
    let full = PREFIX@ + t;
    assert(PREFIX@.len() == 11);
    assert forall|j: int| 0 <= j < full.len() implies '\0' <= #[trigger] full[j] <= '\u{7f}' by {
        if j >= 11 {
            assert(full[j] == t[j - 11]);
            assert(is_base32_symbol(t[j - 11]));
        }
    }
    assert(is_ascii_chars(full));
    vstd::utf8::is_ascii_chars_encode_utf8(full);
    let eb = encode_utf8(full);
    assert forall|j: int| 0 <= j < 11 implies eb.take(11)[j] == #[trigger] prefix_bytes()[j] by {
        assert(full[j] as u8 == eb[j]);
    }
    assert(eb.take(11) =~= prefix_bytes());
    let up = eb.skip(11).map_values(|b: u8| upper_ascii(b));
    assert forall|j: int| 0 <= j < t.len() implies up[j] == #[trigger] char_bytes(t)[j] by {
        assert(full[j + 11] as u8 == eb[j + 11]);
        assert(full[j + 11] == t[j]);
        assert(is_base32_symbol(t[j]));
    }
    assert(up =~= char_bytes(t));
}

/// The text made of the prefix and a base32 text in lower case reads back
/// as the data of that base32 text.
proof fn lemma_ticket_text_reads_back(t: Seq<char>, payload: Seq<u8>)
    requires
        forall|j: int| 0 <= j < t.len() ==> is_base32_symbol(#[trigger] t[j]),
        base32_nopad_data(char_bytes(t)) == Some(payload),
    ensures
        ticket_payload(encode_utf8(PREFIX@ + t.map_values(|c: char| lower_ascii(c)))) == Ok::<
            Seq<u8>,
            BlobTicketError,
        >(payload),
{
    reveal_strlit("atman-blob1");
    let lt = t.map_values(|c: char| lower_ascii(c));
    let full = PREFIX@ + lt;
    assert(PREFIX@.len() == 11);
    assert forall|j: int| 0 <= j < full.len() implies '\0' <= #[trigger] full[j] <= '\u{7f}' by {
        if j >= 11 {
            assert(full[j] == lt[j - 11]);
            assert(is_base32_symbol(t[j - 11]));
        }
    }
    assert(is_ascii_chars(full));
    vstd::utf8::is_ascii_chars_encode_utf8(full);
    let eb = encode_utf8(full);
    assert(eb.len() == full.len());
    assert forall|j: int| 0 <= j < 11 implies eb.take(11)[j] == #[trigger] prefix_bytes()[j] by {
        assert(full[j] as u8 == eb[j]);
    }
    assert(eb.take(11) =~= prefix_bytes());
    let up = eb.skip(11).map_values(|b: u8| upper_ascii(b));
    assert forall|j: int| 0 <= j < t.len() implies up[j] == #[trigger] char_bytes(t)[j] by {
        assert(full[j + 11] as u8 == eb[j + 11]);
        assert(full[j + 11] == lt[j]);
        assert(is_base32_symbol(t[j]));
    }
    assert(up =~= char_bytes(t));
}

/// Reads the payload of a ticket from its text: `MissingPrefix` where the
/// text does not start with [`PREFIX`], `BadBase32` where the rest, taken in
/// upper case, is not unpadded base32.
pub fn decode_ticket(s: &str) -> (res: Result<Vec<u8>, BlobTicketError>)
    requires
        encode_utf8(s@).len() <= usize::MAX / 8,
    ensures
        match ticket_payload(encode_utf8(s@)) {
            Ok(d) => res matches Ok(v) && v@ == d,
            Err(e) => res matches Err(x) && x == e,
        },
{
    let bytes = s.as_bytes();
    let pre: [u8; 11] = [97u8, 116u8, 109u8, 97u8, 110u8, 45u8, 98u8, 108u8, 111u8, 98u8, 49u8];
    if bytes.len() < 11 {
        return Err(BlobTicketError::MissingPrefix);
    }
    let mut k: usize = 0;
    while k < 11
        invariant
            k <= 11,
            bytes@ == encode_utf8(s@),
            bytes@.len() >= 11,
            pre@ == prefix_bytes(),
            forall|j: int| 0 <= j < k ==> bytes@[j] == prefix_bytes()[j],
        decreases 11 - k,
    {
        if bytes[k] != pre[k] {
            proof {
                assert(bytes@.take(11)[k as int] != prefix_bytes()[k as int]);
            }
            return Err(BlobTicketError::MissingPrefix);
        }
        k = k + 1;
    }
    proof {
        assert(bytes@.take(11) =~= prefix_bytes());
    }
    let mut upper: Vec<u8> = Vec::new();
    let mut i: usize = 11;
    while i < bytes.len()
        invariant
            11 <= i <= bytes@.len(),
            bytes@ == encode_utf8(s@),
            upper@ == bytes@.subrange(11, i as int).map_values(|b: u8| upper_ascii(b)),
        decreases bytes@.len() - i,
    {
        let b = bytes[i];
        let u: u8 = if 97 <= b && b <= 122 {
            b - 32
        } else {
            b
        };
        upper.push(u);
        i = i + 1;
        proof {
            assert(bytes@.subrange(11, i as int).map_values(|b: u8| upper_ascii(b)) =~= bytes@.subrange(
                11,
                (i - 1) as int,
            ).map_values(|b: u8| upper_ascii(b)).push(upper_ascii(bytes@[i - 1])));
        }
    }
    proof {
        assert(bytes@.subrange(11, bytes@.len() as int) =~= bytes@.skip(11));
    }
    match base32_nopad_decode(upper.as_slice()) {
        Some(d) => Ok(d),
        None => Err(BlobTicketError::BadBase32),
    }
}

} // verus!
