//! The node's identity key and its hex form.
use vstd::prelude::*;

use vstd::utf8::{encode_utf8, is_ascii_chars};

verus! {

/// A 32-byte secret key.
pub type SecretKey = [u8; 32];

/// Why hex text could not be read (the errors of the `hex` crate).
#[derive(PartialEq, Eq, Structural, Clone, Copy, Debug)]
pub enum HexError {
    /// The character `c` at `index` is not a hex digit.
    InvalidHexCharacter { c: char, index: usize },
    /// The text has an odd number of digits.
    OddLength,
    /// The text does not have the length that the output needs.
    InvalidStringLength,
}

/// The value of the hex digit `b` (either case), if it is one.
pub open spec fn hex_value(b: u8) -> Option<u8> {
    if 48 <= b && b <= 57 {
        Some((b - 48) as u8)
    } else if 65 <= b && b <= 70 {
        Some((b - 55) as u8)
    } else if 97 <= b && b <= 102 {
        Some((b - 87) as u8)
    } else {
        None
    }
}

/// The bytes that the hex text `s` stands for, two digits per byte, the high
/// digit first; `s` must be all digits of even length.
pub open spec fn hex_bytes(s: Seq<u8>) -> Seq<u8> {
    Seq::new(
        s.len() / 2,
        |i: int| (hex_value(s[2 * i]).unwrap() * 16 + hex_value(s[2 * i + 1]).unwrap()) as u8,
    )
}

/// What `hex::decode` gives for `s`: `OddLength` for an odd length, else the
/// first character that is not a hex digit, else the bytes.
pub open spec fn hex_decode_spec(s: Seq<u8>) -> Result<Seq<u8>, HexError> {
    if s.len() % 2 != 0 {
        Err(HexError::OddLength)
    } else if exists|i: int| 0 <= i < s.len() && hex_value(s[i]) is None {
        let i = choose|i: int|
            0 <= i < s.len() && hex_value(s[i]) is None && forall|j: int|
                0 <= j < i ==> hex_value(#[trigger] s[j]) is Some;
        Err(HexError::InvalidHexCharacter { c: s[i] as char, index: i as usize })
    } else {
        Ok(hex_bytes(s))
    }
}

/// The lower-case hex digit of `v`.
pub open spec fn hex_digit(v: u8) -> char {
    if v < 10 {
        (48 + v) as char
    } else {
        (87 + v) as char
    }
}

/// The lower-case hex text of `data`, two digits per byte, the high digit
/// first.
pub open spec fn hex_text(data: Seq<u8>) -> Seq<char> {
    Seq::new(
        2 * data.len(),
        |i: int|
            if i % 2 == 0 {
                hex_digit(data[i / 2] / 16)
            } else {
                hex_digit(data[i / 2] % 16)
            },
    )
}

/// The bytes that the hex text `s` stands for.
///
/// Calls `hex::decode`, whose source returns `OddLength` for an odd length,
/// `InvalidHexCharacter` for the first character that is not one of `0`-`9`,
/// `a`-`f`, `A`-`F`, and otherwise two digits per byte, the high one first;
/// its error is mapped variant by variant to [`HexError`].
#[verifier::external_body]
fn hex_decode(s: &[u8]) -> (res: Result<Vec<u8>, HexError>)
    ensures
        match hex_decode_spec(s@) {
            Ok(d) => res matches Ok(v) && v@ == d,
            Err(e) => res matches Err(x) && x == e,
        },
{
    match hex::decode(s) {
        Ok(v) => Ok(v),
        Err(hex::FromHexError::InvalidHexCharacter { c, index }) => Err(
            HexError::InvalidHexCharacter { c, index },
        ),
        Err(hex::FromHexError::OddLength) => Err(HexError::OddLength),
        Err(hex::FromHexError::InvalidStringLength) => Err(HexError::InvalidStringLength),
    }
}

/// The lower-case hex text of `data`.
///
/// Calls `hex::encode`, whose source writes two lower-case digits per byte,
/// the high one first.
#[verifier::external_body]
fn hex_encode(data: &[u8]) -> (res: String)
    ensures
        res@ == hex_text(data@),
{
    hex::encode(data)
}

/// Why hex text is not a secret key.
#[derive(Debug)]
pub enum SecretKeyError {
    /// The text is not hex.
    HexDecodeError(HexError),
    /// The text does not stand for exactly 32 bytes.
    InvalidKeyError,
}

/// The secret key that the hex text `hex_str` stands for: its hex error where
/// it is not hex, `InvalidKeyError` where it does not stand for 32 bytes.
pub fn secret_key_from_hex(hex_str: &[u8]) -> (res: Result<SecretKey, SecretKeyError>)
    ensures
        match hex_decode_spec(hex_str@) {
            Err(e) => res matches Err(SecretKeyError::HexDecodeError(x)) && x == e,
            Ok(d) => if d.len() == 32 {
                res matches Ok(k) && k@ == d
            } else {
                res matches Err(SecretKeyError::InvalidKeyError)
            },
        },
{
    let bytes = match hex_decode(hex_str) {
        Ok(v) => v,
        Err(e) => return Err(SecretKeyError::HexDecodeError(e)),
    };
    if bytes.len() != 32 {
        return Err(SecretKeyError::InvalidKeyError);
    }
    let mut key: [u8; 32] = [0u8; 32];
    let mut i: usize = 0;
    while i < 32
        invariant
            bytes@.len() == 32,
            i <= 32,
            forall|j: int| 0 <= j < i ==> key@[j] == bytes@[j],
        decreases 32 - i,
    {
        key[i] = bytes[i];
        i = i + 1;
    }
    proof {
        assert(key@ =~= bytes@);
    }
    Ok(key)
}

/// The lower-case hex text of a secret key, the form in which a
/// configuration holds it.
pub fn secret_key_to_hex(key: &SecretKey) -> (res: String)
    ensures
        res@ == hex_text(key@),
        res@.len() == 64,
        hex_decode_spec(encode_utf8(res@)) == Ok::<Seq<u8>, HexError>(key@),
{
    let res = hex_encode(key.as_slice());
    proof {
        lemma_hex_text_reads_back(key@);
    }
    res
}

/// The hex text of a secret key reads back as that key: it is 64 digits,
/// and reading it gives 32 bytes, the key's own, so that
/// [`secret_key_from_hex`] accepts it and gives the key back.
pub proof fn lemma_secret_key_hex_roundtrip(key: SecretKey)
    ensures
        hex_text(key@).len() == 64,
        hex_decode_spec(encode_utf8(hex_text(key@))) matches Ok(d) && d == key@ && d.len() == 32,
{
    lemma_hex_text_reads_back(key@);
}

/// The hex text of any data reads back as that data.
pub proof fn lemma_hex_text_reads_back(data: Seq<u8>)
    ensures
        hex_decode_spec(encode_utf8(hex_text(data))) == Ok::<Seq<u8>, HexError>(data),
{
    let t = hex_text(data);
    assert forall|j: int| 0 <= j < t.len() implies '\0' <= #[trigger] t[j] <= '\u{7f}' by {
        let b = data[j / 2];
        assert(b / 16 < 16);
        assert(b % 16 < 16);
    }
    assert(is_ascii_chars(t));
    vstd::utf8::is_ascii_chars_encode_utf8(t);
    let s = encode_utf8(t);
    assert(s.len() == 2 * data.len());
    assert forall|j: int| 0 <= j < s.len() implies hex_value(#[trigger] s[j]) == Some(
        if j % 2 == 0 {
            data[j / 2] / 16
        } else {
            data[j / 2] % 16
        },
    ) by {
        assert(t[j] as u8 == s[j]);
        let b = data[j / 2];
        assert(b / 16 < 16);
        assert(b % 16 < 16);
    }
    assert(s.len() % 2 == 0);
    assert(!exists|i: int| 0 <= i < s.len() && hex_value(s[i]) is None);
    assert forall|i: int| 0 <= i < data.len() implies #[trigger] hex_bytes(s)[i] == data[i] by {
        assert(hex_value(s[2 * i]) == Some(data[i] / 16)) by {
            assert((2 * i) % 2 == 0);
            assert((2 * i) / 2 == i);
        }
        assert(hex_value(s[2 * i + 1]) == Some(data[i] % 16)) by {
            assert((2 * i + 1) % 2 == 1);
            assert((2 * i + 1) / 2 == i);
        }
        let b = data[i];
        assert((b / 16) * 16 + b % 16 == b);
    }
    assert(hex_bytes(s) =~= data);
}

} // verus!
