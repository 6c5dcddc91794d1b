//! Round trips and error cases of the wire codec.

use reflex::wire::{decode_args, decode_message, encode_event, Arg, ArgKind, DecodeError};

fn round_trip(object_id: u32, opcode: u16, args: Vec<Arg>, kinds: Vec<ArgKind>) {
    let bytes = encode_event(object_id, opcode, &args).expect("encode");
    let (id, op, len, raw) = decode_message(&bytes).expect("decode header");
    assert_eq!(id, object_id);
    assert_eq!(op, opcode);
    assert_eq!(len as usize, bytes.len());
    let decoded = decode_args(&raw, &kinds).expect("decode args");
    assert_eq!(decoded, args);
}

#[test]
fn round_trip_uint() {
    round_trip(3, 1, vec![Arg::Uint(0), Arg::Uint(u32::MAX)], vec![
        ArgKind::Uint,
        ArgKind::Uint,
    ]);
}

#[test]
fn round_trip_int() {
    round_trip(3, 1, vec![Arg::Int(-1), Arg::Int(i32::MIN), Arg::Int(i32::MAX)], vec![
        ArgKind::Int,
        ArgKind::Int,
        ArgKind::Int,
    ]);
}

#[test]
fn round_trip_fixed() {
    round_trip(7, 2, vec![Arg::Fixed(-256), Arg::Fixed(511)], vec![
        ArgKind::Fixed,
        ArgKind::Fixed,
    ]);
}

#[test]
fn round_trip_object_id() {
    round_trip(9, 0, vec![Arg::Object(42), Arg::NewId(0xFF000001)], vec![
        ArgKind::Object,
        ArgKind::NewId,
    ]);
}

#[test]
fn round_trip_string_multibyte_utf8() {
    let text = "héllo wörld — ärger 文字".as_bytes().to_vec();
    round_trip(2, 5, vec![Arg::Str(text)], vec![ArgKind::Str]);
}

#[test]
fn round_trip_empty_string() {
    round_trip(2, 5, vec![Arg::Str(Vec::new())], vec![ArgKind::Str]);
}

#[test]
fn round_trip_array_len_0_and_7() {
    round_trip(2, 5, vec![Arg::Array(Vec::new())], vec![ArgKind::Array]);
    round_trip(2, 5, vec![Arg::Array(vec![1, 2, 3, 4, 5, 6, 7])], vec![ArgKind::Array]);
}

#[test]
fn round_trip_mixed_args() {
    round_trip(
        11,
        4,
        vec![
            Arg::Uint(7),
            Arg::Str("héllo".as_bytes().to_vec()),
            Arg::Int(-9),
            Arg::Array(vec![0xAA; 7]),
            Arg::Object(1),
        ],
        vec![ArgKind::Uint, ArgKind::Str, ArgKind::Int, ArgKind::Array, ArgKind::Object],
    );
}

#[test]
fn wire_layout_is_exact() {
    // 200 as the object id, opcode 3, one uint argument: 12 bytes total,
    // least significant byte first throughout.
    let bytes = encode_event(200, 3, &vec![Arg::Uint(0x01020304)]).expect("encode");
    assert_eq!(
        bytes,
        vec![200, 0, 0, 0, 3, 0, 12, 0, 0x04, 0x03, 0x02, 0x01]
    );
}

#[test]
fn string_padding_layout() {
    // A 3-byte string: length field 4 (text plus NUL), payload padded to 4.
    let bytes = encode_event(1, 0, &vec![Arg::Str(b"abc".to_vec())]).expect("encode");
    assert_eq!(bytes.len(), 8 + 4 + 4);
    assert_eq!(&bytes[8..12], &[4, 0, 0, 0]);
    assert_eq!(&bytes[12..16], &[b'a', b'b', b'c', 0]);
}

#[test]
fn message_too_large_refused() {
    let big = vec![0u8; 0x10000];
    let r = encode_event(1, 0, &vec![Arg::Array(big)]);
    assert!(r.is_err());
}

#[test]
fn truncated_header() {
    let r = decode_message(&vec![1, 2, 3]);
    assert_eq!(r.unwrap_err(), DecodeError::Truncated);
}

#[test]
fn truncated_body() {
    let mut bytes = encode_event(1, 0, &vec![Arg::Uint(5)]).expect("encode");
    bytes.pop();
    let r = decode_message(&bytes);
    assert_eq!(r.unwrap_err(), DecodeError::Truncated);
}

#[test]
fn declared_length_below_header_is_malformed() {
    // Length field of 4: cannot even hold the 8-byte header.
    let bytes = vec![1, 0, 0, 0, 0, 0, 4, 0];
    let r = decode_message(&bytes);
    assert_eq!(r.unwrap_err(), DecodeError::MalformedArgument);
}

#[test]
fn leftover_bytes_are_invalid_method() {
    // One uint encoded, but the signature says no arguments: extra bytes.
    let raw = vec![1, 0, 0, 0];
    let r = decode_args(&raw, &Vec::new());
    assert_eq!(r.unwrap_err(), DecodeError::InvalidMethod);
}

#[test]
fn missing_bytes_are_malformed() {
    let raw = vec![1, 0];
    let r = decode_args(&raw, &vec![ArgKind::Uint]);
    assert_eq!(r.unwrap_err(), DecodeError::MalformedArgument);
}

#[test]
fn non_utf8_string_is_malformed() {
    // Length 3 (two bytes plus NUL); 0xFF is never valid UTF-8.
    let raw = vec![3, 0, 0, 0, 0xFF, 0xFE, 0, 0];
    let r = decode_args(&raw, &vec![ArgKind::Str]);
    assert_eq!(r.unwrap_err(), DecodeError::MalformedArgument);
}

#[test]
fn string_without_nul_is_malformed() {
    let raw = vec![4, 0, 0, 0, b'a', b'b', b'c', b'd'];
    let r = decode_args(&raw, &vec![ArgKind::Str]);
    assert_eq!(r.unwrap_err(), DecodeError::MalformedArgument);
}

#[test]
fn stream_prefix_longer_than_message_is_accepted() {
    let mut bytes = encode_event(6, 1, &vec![Arg::Uint(9)]).expect("encode");
    let len = bytes.len();
    bytes.extend_from_slice(&[0xDE, 0xAD, 0xBE, 0xEF]);
    let (id, op, declared, raw) = decode_message(&bytes).expect("decode");
    assert_eq!((id, op, declared as usize), (6, 1, len));
    assert_eq!(raw.len(), len - 8);
}
