use atman::config::{secret_key_from_hex, secret_key_to_hex, HexError, SecretKeyError};

#[test]
fn key_reads_from_hex_in_any_case() {
    let hex = "00112233445566778899aabbccddeeff00112233445566778899AABBCCDDEEFF";
    let key = match secret_key_from_hex(hex.as_bytes()) {
        Ok(k) => k,
        Err(_) => panic!("valid key"),
    };
    assert_eq!(key[0], 0x00);
    assert_eq!(key[10], 0xaa);
    assert_eq!(key[31], 0xff);
}

#[test]
fn key_hex_reads_back() {
    let key: [u8; 32] = core::array::from_fn(|i| (i * 7) as u8);
    let hex = secret_key_to_hex(&key);
    assert_eq!(hex.len(), 64);
    assert_eq!(&hex[..6], "00070e");
    match secret_key_from_hex(hex.as_bytes()) {
        Ok(k) => assert_eq!(k, key),
        Err(_) => panic!("hex of a key reads back"),
    }
}

#[test]
fn odd_hex_is_refused() {
    assert!(matches!(secret_key_from_hex(b"abc"), Err(SecretKeyError::HexDecodeError(HexError::OddLength))));
}

#[test]
fn first_bad_hex_digit_is_reported() {
    assert!(matches!(
        secret_key_from_hex(b"00zz"),
        Err(SecretKeyError::HexDecodeError(HexError::InvalidHexCharacter { c: 'z', index: 2 }))
    ));
}

#[test]
fn key_of_wrong_length_is_refused() {
    assert!(matches!(secret_key_from_hex(b"0011"), Err(SecretKeyError::InvalidKeyError)));
    assert!(matches!(secret_key_from_hex(b""), Err(SecretKeyError::InvalidKeyError)));
}
