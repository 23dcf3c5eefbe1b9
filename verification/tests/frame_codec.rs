use okc_gpg::error::AgentError;
use okc_gpg::frame::{decode_frame, encode_frame, frame_len, string_of_payload};

#[test]
fn frame_round_trip_hello() {
    let encoded = encode_frame("hello").unwrap();
    assert_eq!(encoded, vec![0u8, 5, b'h', b'e', b'l', b'l', b'o']);
    let (decoded, used) = decode_frame(&encoded).unwrap();
    assert_eq!(decoded, "hello");
    assert_eq!(used, 7);
}

#[test]
fn frame_round_trip_empty_string() {
    let encoded = encode_frame("").unwrap();
    assert_eq!(encoded, vec![0u8, 0]);
    let (decoded, used) = decode_frame(&encoded).unwrap();
    assert_eq!(decoded, "");
    assert_eq!(used, 2);
}

#[test]
fn frame_round_trip_multibyte() {
    let original = "caf\u{e9} \u{2713}";
    let encoded = encode_frame(original).unwrap();
    assert_eq!(frame_len(encoded[0], encoded[1]), original.len());
    let (decoded, used) = decode_frame(&encoded).unwrap();
    assert_eq!(decoded, original);
    assert_eq!(used, original.len() + 2);
}

#[test]
fn frame_round_trip_largest_payload() {
    let original = "a".repeat(65535);
    let encoded = encode_frame(&original).unwrap();
    assert_eq!(encoded.len(), 65537);
    assert_eq!(encoded[0], 255);
    assert_eq!(encoded[1], 255);
    let (decoded, used) = decode_frame(&encoded).unwrap();
    assert_eq!(decoded, original);
    assert_eq!(used, 65537);
}

#[test]
fn frame_too_long_is_rejected_before_encoding() {
    let too_long = "a".repeat(65536);
    assert!(encode_frame(&too_long).is_none());
}

#[test]
fn frame_invalid_utf8_is_protocol_error() {
    // The declared length matches the payload, but 0xc3 0x28 is not UTF-8.
    let buf = vec![0u8, 2, 0xc3, 0x28];
    assert_eq!(decode_frame(&buf), Err(AgentError::Protocol));
    assert_eq!(string_of_payload(vec![0xff]), Err(AgentError::Protocol));
}

#[test]
fn frame_valid_payload_decodes() {
    assert_eq!(string_of_payload(b"warn".to_vec()), Ok("warn".to_string()));
}

#[test]
fn frame_truncated_buffer_is_io_error() {
    assert_eq!(decode_frame(&vec![]), Err(AgentError::Io));
    assert_eq!(decode_frame(&vec![0u8]), Err(AgentError::Io));
    assert_eq!(decode_frame(&vec![0u8, 3, b'a']), Err(AgentError::Io));
}

#[test]
fn frame_decode_ignores_trailing_bytes() {
    // A buffer holding a frame and the start of whatever follows it:
    // decoding consumes exactly the frame.
    let buf = vec![0u8, 2, b'h', b'i', 9, 9, 9];
    let (decoded, used) = decode_frame(&buf).unwrap();
    assert_eq!(decoded, "hi");
    assert_eq!(used, 4);
}

#[test]
fn frame_len_is_big_endian() {
    assert_eq!(frame_len(0, 0), 0);
    assert_eq!(frame_len(1, 0), 256);
    assert_eq!(frame_len(0x12, 0x34), 0x1234);
    assert_eq!(frame_len(0xff, 0xff), 65535);
}
