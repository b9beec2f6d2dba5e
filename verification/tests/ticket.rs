use atman::ticket::{decode_ticket, encode_ticket, BlobTicketError, PREFIX};

#[test]
fn roundtrip() {
    let payload: Vec<u8> = (0u8..64).map(|b| b.wrapping_mul(37)).collect();
    let s = encode_ticket(&payload);
    assert!(s.starts_with(PREFIX));
    let parsed = decode_ticket(&s).unwrap();
    assert_eq!(parsed, payload);
    // The text after the prefix is unpadded lower-case base32.
    assert_eq!(s.len(), PREFIX.len() + (8 * payload.len() + 4) / 5);
    assert!(s[PREFIX.len()..].chars().all(|c| c.is_ascii_lowercase() || ('2'..='7').contains(&c)));
    // The same text with its body in upper case reads back too.
    let upper = format!("{}{}", PREFIX, s[PREFIX.len()..].to_ascii_uppercase());
    assert_eq!(decode_ticket(&upper).unwrap(), payload);
}

#[test]
fn ticket_text_is_lower_case_base32() {
    let s = encode_ticket(b"hello");
    assert_eq!(s, "atman-blob1nbswy3dp");
}

#[test]
fn ticket_body_is_read_in_any_case() {
    assert_eq!(decode_ticket("atman-blob1NBSWY3DP").unwrap(), b"hello".to_vec());
    assert_eq!(decode_ticket("atman-blob1NbSwY3dP").unwrap(), b"hello".to_vec());
}

#[test]
fn ticket_without_prefix_is_refused() {
    assert_eq!(decode_ticket("nbswy3dp"), Err(BlobTicketError::MissingPrefix));
    assert_eq!(decode_ticket("atman-blob"), Err(BlobTicketError::MissingPrefix));
    assert_eq!(decode_ticket("Atman-blob1nbswy3dp"), Err(BlobTicketError::MissingPrefix));
}

#[test]
fn ticket_with_bad_base32_is_refused() {
    assert_eq!(decode_ticket("atman-blob1nbswy3d!"), Err(BlobTicketError::BadBase32));
    assert_eq!(decode_ticket("atman-blob1a"), Err(BlobTicketError::BadBase32));
}

#[test]
fn empty_payload_has_empty_body() {
    assert_eq!(encode_ticket(b""), PREFIX);
    assert_eq!(decode_ticket(PREFIX).unwrap(), Vec::<u8>::new());
}
