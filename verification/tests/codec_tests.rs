//! Wire codec behavior: round trips, exact layouts, and error reporting.

use parfs::codec::{
    decode_header, decode_message_bytes, encode_header, encode_message_bytes, next_chunk_len,
    ProtocolError,
};
use parfs::endian::{u32_from_le_bytes, u32_to_le_bytes, u64_from_be_bytes};
use parfs::message::MessageKind;

fn all_kinds() -> Vec<MessageKind> {
    vec![
        MessageKind::Connect,
        MessageKind::Login,
        MessageKind::Success,
        MessageKind::Error,
        MessageKind::Mkdir,
        MessageKind::Cd,
        MessageKind::Ls,
        MessageKind::Up,
        MessageKind::Down,
        MessageKind::File,
    ]
}

#[test]
fn kind_codes_round_trip() {
    for kind in all_kinds() {
        let code = kind.to_u8();
        assert_eq!(MessageKind::from_u8(code), kind);
        assert_eq!(MessageKind::from_u8_checked(code), Some(kind));
    }
}

#[test]
fn unknown_kind_byte_is_reported() {
    assert_eq!(MessageKind::from_u8_checked(99), None);
    assert_eq!(MessageKind::from_u8_checked(0), None);
}

#[test]
fn header_layout_is_exact() {
    // total = 13 + 3 + 5 = 21, kind Success = 3, argument length 3.
    let h = encode_header(MessageKind::Success, 3, 5);
    assert_eq!(h, vec![0, 0, 0, 0, 0, 0, 0, 21, 3, 0, 0, 0, 3]);
}

#[test]
fn message_round_trip() {
    for kind in all_kinds() {
        let argument = b"some/path.txt".to_vec();
        let payload = vec![7u8, 0, 255, 42];
        let bytes = encode_message_bytes(kind, &argument, &payload).unwrap();
        let (k, a, p) = decode_message_bytes(&bytes).unwrap();
        assert_eq!(k, kind);
        assert_eq!(a, argument);
        assert_eq!(p, payload);
    }
}

#[test]
fn empty_message_round_trip() {
    let bytes = encode_message_bytes(MessageKind::Ls, &Vec::new(), &Vec::new()).unwrap();
    assert_eq!(bytes.len(), 13);
    let (k, a, p) = decode_message_bytes(&bytes).unwrap();
    assert_eq!(k, MessageKind::Ls);
    assert!(a.is_empty());
    assert!(p.is_empty());
}

#[test]
fn large_payload_round_trip() {
    // A five-mebibyte payload survives byte for byte.
    let payload: Vec<u8> = (0..5 * 1024 * 1024u32).map(|i| (i % 251) as u8).collect();
    let argument = b"remote.txt".to_vec();
    let bytes = encode_message_bytes(MessageKind::File, &argument, &payload).unwrap();
    let (k, a, p) = decode_message_bytes(&bytes).unwrap();
    assert_eq!(k, MessageKind::File);
    assert_eq!(a, argument);
    assert_eq!(p, payload);
}

#[test]
fn decode_header_rejects_unknown_kind() {
    let mut h = encode_header(MessageKind::Success, 0, 0);
    h[8] = 77;
    assert_eq!(decode_header(&h), Err(ProtocolError::UnknownKind(77)));
}

#[test]
fn decode_header_rejects_short_total() {
    // total_size 5 is smaller than the header alone.
    let h = vec![0, 0, 0, 0, 0, 0, 0, 5, 3, 0, 0, 0, 0];
    assert_eq!(decode_header(&h), Err(ProtocolError::BadLength));
}

#[test]
fn decode_header_computes_payload_length() {
    let h = encode_header(MessageKind::File, 4, 1000);
    let header = decode_header(&h).unwrap();
    assert_eq!(header.kind, MessageKind::File);
    assert_eq!(header.argument_length, 4);
    assert_eq!(header.payload_length, 1000);
}

#[test]
fn decode_message_rejects_size_mismatch() {
    let mut bytes = encode_message_bytes(MessageKind::Cd, &b"dir".to_vec(), &Vec::new()).unwrap();
    bytes.push(0); // one byte too many for the announced total
    assert_eq!(decode_message_bytes(&bytes), Err(ProtocolError::ArgumentSizeMismatch));
}

#[test]
fn port_handshake_is_little_endian() {
    // 12801 = 0x3201: least significant byte first.
    let bytes = u32_to_le_bytes(12801);
    assert_eq!(bytes, vec![0x01, 0x32, 0, 0]);
    assert_eq!(u32_from_le_bytes(&bytes), 12801);
}

#[test]
fn total_size_is_big_endian() {
    let bytes = vec![0, 0, 0, 0, 0, 0, 0x01, 0x02];
    assert_eq!(u64_from_be_bytes(&bytes, 0), 258);
}

#[test]
fn chunking_reads_bounded_tail() {
    assert_eq!(next_chunk_len(10, 1048576), 10);
    assert_eq!(next_chunk_len(1048576 + 5, 1048576), 1048576);
    assert_eq!(next_chunk_len(0, 1048576), 0);
}
