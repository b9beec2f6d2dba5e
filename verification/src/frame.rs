//! Length-prefixed frames of the peer protocols.
//!
//! Every frame is a big-endian `u64` length followed by that many bytes.
//! A frame whose length is zero carries no data: it is the finish frame,
//! which tells the peer that nothing more will follow.
use vstd::prelude::*;

verus! {

/// Number of bytes in a frame header.
pub const HEADER_LEN: usize = 8;

/// The big-endian bytes of `n`.
pub open spec fn be_u64_bytes(n: u64) -> Seq<u8> {
    seq![
        (n >> 56u64) as u8,
        (n >> 48u64) as u8,
        (n >> 40u64) as u8,
        (n >> 32u64) as u8,
        (n >> 24u64) as u8,
        (n >> 16u64) as u8,
        (n >> 8u64) as u8,
        n as u8,
    ]
}

/// The `u64` whose big-endian bytes are the first eight of `b`.
#[verifier::opaque]
pub open spec fn be_u64_value(b: Seq<u8>) -> u64
    recommends
        b.len() >= 8,
{
    ((b[0] as u64) << 56u64) | ((b[1] as u64) << 48u64) | ((b[2] as u64) << 40u64) | ((
    b[3] as u64) << 32u64) | ((b[4] as u64) << 24u64) | ((b[5] as u64) << 16u64) | ((
    b[6] as u64) << 8u64) | (b[7] as u64)
}

/// Reading back the bytes of a number gives the number.
pub proof fn lemma_be_u64_roundtrip(n: u64)
    ensures
        be_u64_bytes(n).len() == 8,
        be_u64_value(be_u64_bytes(n)) == n,
{
    reveal(be_u64_value);
    let b = be_u64_bytes(n);
    assert(b[0] == (n >> 56u64) as u8);
    assert(b[7] == n as u8);
    assert(((((n >> 56u64) as u8) as u64) << 56u64) | ((((n >> 48u64) as u8) as u64) << 48u64)
        | ((((n >> 40u64) as u8) as u64) << 40u64) | ((((n >> 32u64) as u8) as u64) << 32u64)
        | ((((n >> 24u64) as u8) as u64) << 24u64) | ((((n >> 16u64) as u8) as u64) << 16u64)
        | ((((n >> 8u64) as u8) as u64) << 8u64) | ((n as u8) as u64) == n) by (bit_vector);
}

/// The bytes of a frame that carries `data`.
pub open spec fn frame_bytes(data: Seq<u8>) -> Seq<u8> {
    be_u64_bytes(data.len() as u64) + data
}

/// The bytes of the finish frame.
pub open spec fn finish_bytes() -> Seq<u8> {
    be_u64_bytes(0)
}

/// What the front of `buf` holds: `None` while a whole frame has not arrived,
/// else the frame's data (`None` for the finish frame) and the number of bytes
/// that the frame takes.
#[verifier::opaque]
pub open spec fn decode_frame_spec(buf: Seq<u8>) -> Option<(Option<Seq<u8>>, nat)> {
    if buf.len() < 8 {
        None
    } else {
        let n = be_u64_value(buf);
        if n == 0 {
            Some((None, 8nat))
        } else if buf.len() - 8 < n {
            None
        } else {
            Some((Some(buf.subrange(8, 8 + n)), (8 + n) as nat))
        }
    }
}

/// A view of an optional byte buffer.
pub open spec fn opt_bytes_view(o: Option<Vec<u8>>) -> Option<Seq<u8>> {
    match o {
        Some(v) => Some(v@),
        None => None,
    }
}

/// Appends the big-endian bytes of `n` to `out`.
pub fn push_u64_be(out: &mut Vec<u8>, n: u64)
    ensures
        final(out)@ == old(out)@ + be_u64_bytes(n),
{
    out.push((n >> 56u64) as u8);
    out.push((n >> 48u64) as u8);
    out.push((n >> 40u64) as u8);
    out.push((n >> 32u64) as u8);
    out.push((n >> 24u64) as u8);
    out.push((n >> 16u64) as u8);
    out.push((n >> 8u64) as u8);
    out.push(n as u8);
    assert(out@ =~= old(out)@ + be_u64_bytes(n));
}

/// The length that a frame header announces.
pub fn frame_len_from_header(header: &[u8]) -> (len: u64)
    requires
        header@.len() == HEADER_LEN,
    ensures
        len == be_u64_value(header@),
{
    reveal(be_u64_value);
    ((header[0] as u64) << 56u64) | ((header[1] as u64) << 48u64) | ((header[2] as u64) << 40u64)
        | ((header[3] as u64) << 32u64) | ((header[4] as u64) << 24u64) | ((header[5] as u64)
        << 16u64) | ((header[6] as u64) << 8u64) | (header[7] as u64)
}

/// Appends `data` to `out`.
fn extend_from(out: &mut Vec<u8>, data: &[u8])
    ensures
        final(out)@ == old(out)@ + data@,
{
    let mut i: usize = 0;
    while i < data.len()
        invariant
            i <= data@.len(),
            out@ == old(out)@ + data@.subrange(0, i as int),
        decreases data@.len() - i,
    {
        out.push(data[i]);
        i = i + 1;
        assert(out@ =~= old(out)@ + data@.subrange(0, i as int));
    }
    assert(data@.subrange(0, data@.len() as int) =~= data@);
}

/// The frame that carries `data` (the finish frame where `data` is empty).
pub fn encode_frame(data: &[u8]) -> (res: Vec<u8>)
    ensures
        res@ == frame_bytes(data@),
{
    let mut out: Vec<u8> = Vec::new();
    push_u64_be(&mut out, data.len() as u64);
    extend_from(&mut out, data);
    assert(out@ =~= frame_bytes(data@));
    out
}

/// The finish frame.
pub fn encode_finish() -> (res: Vec<u8>)
    ensures
        res@ == finish_bytes(),
{
    let mut out: Vec<u8> = Vec::new();
    push_u64_be(&mut out, 0);
    assert(out@ =~= finish_bytes());
    out
}

/// The frame that carries a sync message: an empty message goes out as the
/// finish frame, any other as a frame that carries it.
pub fn encode_sync_msg(msg: &[u8]) -> (res: Vec<u8>)
    ensures
        res@ == frame_bytes(msg@),
        msg@.len() == 0 ==> res@ == finish_bytes(),
{
    if msg.len() == 0 {
        let res = encode_finish();
        assert(frame_bytes(msg@) =~= finish_bytes());
        res
    } else {
        encode_frame(msg)
    }
}

/// Copies `buf[start..end]`.
fn copy_range(buf: &[u8], start: usize, end: usize) -> (res: Vec<u8>)
    requires
        start <= end <= buf@.len(),
    ensures
        res@ == buf@.subrange(start as int, end as int),
{
    let mut out: Vec<u8> = Vec::new();
    let mut i: usize = start;
    while i < end
        invariant
            start <= i <= end <= buf@.len(),
            out@ == buf@.subrange(start as int, i as int),
        decreases end - i,
    {
        out.push(buf[i]);
        i = i + 1;
        assert(out@ =~= buf@.subrange(start as int, i as int));
    }
    out
}

/// Reads the frame at the front of `buf`: `None` while it has not fully
/// arrived, else its data (`None` for the finish frame) and its size.
pub fn decode_frame(buf: &[u8]) -> (res: Option<(Option<Vec<u8>>, usize)>)
    ensures
        match res {
            None => decode_frame_spec(buf@) is None,
            Some((data, used)) => decode_frame_spec(buf@) == Some((opt_bytes_view(data), used as nat)),
        },
{
    reveal(be_u64_value);
    reveal(decode_frame_spec);
    if buf.len() < HEADER_LEN {
        return None;
    }
    let n: u64 = ((buf[0] as u64) << 56u64) | ((buf[1] as u64) << 48u64) | ((buf[2] as u64)
        << 40u64) | ((buf[3] as u64) << 32u64) | ((buf[4] as u64) << 24u64) | ((buf[5] as u64)
        << 16u64) | ((buf[6] as u64) << 8u64) | (buf[7] as u64);
    assert(n == be_u64_value(buf@));
    if n == 0 {
        return Some((None, HEADER_LEN));
    }
    let avail: usize = buf.len() - HEADER_LEN;
    if (avail as u64) < n {
        return None;
    }
    let end: usize = HEADER_LEN + (n as usize);
    let data = copy_range(buf, HEADER_LEN, end);
    Some((Some(data), end))
}

/// A frame followed by anything reads back as that frame: its data, or the
/// finish frame where the data is empty, and its size.
pub proof fn lemma_decode_frame_bytes(data: Seq<u8>, rest: Seq<u8>)
    requires
        data.len() <= u64::MAX,
    ensures
        decode_frame_spec(frame_bytes(data) + rest) == Some((
            if data.len() == 0 { None::<Seq<u8>> } else { Some(data) },
            (8 + data.len()) as nat,
        )),
{
    reveal(be_u64_value);
    reveal(decode_frame_spec);
    lemma_be_u64_roundtrip(data.len() as u64);
    let buf = frame_bytes(data) + rest;
    let h = be_u64_bytes(data.len() as u64);
    assert(buf.subrange(0, 8) =~= h);
    assert(be_u64_value(buf) == be_u64_value(h)) by {
        assert(buf[0] == h[0]);
        assert(buf[1] == h[1]);
        assert(buf[2] == h[2]);
        assert(buf[3] == h[3]);
        assert(buf[4] == h[4]);
        assert(buf[5] == h[5]);
        assert(buf[6] == h[6]);
        assert(buf[7] == h[7]);
    }
    if data.len() > 0 {
        assert(buf.subrange(8, 8 + data.len() as int) =~= data);
    }
}

} // verus!
