use atman::frame::{decode_frame, encode_finish, encode_frame, encode_sync_msg, frame_len_from_header, push_u64_be};
use atman::protocol::echo::echo_reply;

#[test]
fn frame_has_big_endian_length_then_data() {
    let f = encode_frame(b"abc");
    assert_eq!(f, vec![0, 0, 0, 0, 0, 0, 0, 3, b'a', b'b', b'c']);
}

#[test]
fn finish_frame_is_zero_length() {
    assert_eq!(encode_finish(), vec![0u8; 8]);
}

#[test]
fn empty_sync_message_goes_out_as_finish() {
    assert_eq!(encode_sync_msg(b""), encode_finish());
    assert_eq!(encode_sync_msg(b"x"), encode_frame(b"x"));
}

#[test]
fn u64_bytes_are_big_endian() {
    let mut out = Vec::new();
    push_u64_be(&mut out, 0x0102_0304_0506_0708);
    assert_eq!(out, vec![1, 2, 3, 4, 5, 6, 7, 8]);
    assert_eq!(frame_len_from_header(&out), 0x0102_0304_0506_0708);
    assert_eq!(out, 0x0102_0304_0506_0708u64.to_be_bytes().to_vec());
}

#[test]
fn frame_reads_back_with_trailing_bytes() {
    let mut buf = encode_frame(b"hello");
    buf.extend_from_slice(b"rest");
    let (data, used) = decode_frame(&buf).unwrap();
    assert_eq!(data, Some(b"hello".to_vec()));
    assert_eq!(used, 13);
}

#[test]
fn finish_frame_reads_back_as_none() {
    let buf = encode_finish();
    assert_eq!(decode_frame(&buf), Some((None, 8)));
}

#[test]
fn partial_frames_are_incomplete() {
    let buf = encode_frame(b"hello");
    assert_eq!(decode_frame(&buf[..4]), None);
    assert_eq!(decode_frame(&buf[..12]), None);
    assert_eq!(decode_frame(&[]), None);
}

#[test]
fn echo_answers_data_with_the_same_frame_and_stops_at_finish() {
    assert_eq!(echo_reply(Some(b"ping")), Some(encode_frame(b"ping")));
    assert_eq!(echo_reply(None), None);
}
