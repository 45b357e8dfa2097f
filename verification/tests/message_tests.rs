//! Sender and receiver behavior on both sides: header layout, payload sizes,
//! and UTF-8 argument handling.

use parfs::codec::ProtocolError;
use parfs::message::MessageKind;

#[test]
fn server_sender_builds_exact_headers() {
    let ms = parfs::server::message::sender::MessageSender::new(
        MessageKind::Success,
        String::from("~/"),
        None,
    );
    let headers = ms.generate_headers(0).unwrap();
    // total = 13 + 2, kind Success = 3, argument length 2, then "~/".
    assert_eq!(headers, vec![0, 0, 0, 0, 0, 0, 0, 15, 3, 0, 0, 0, 2, b'~', b'/']);
}

#[test]
fn client_sender_records_measured_payload() {
    let mut ms = parfs::client::message::sender::MessageSender::new(
        MessageKind::File,
        String::new(),
        Some(String::from("local.txt")),
    );
    let headers = ms.generate_message(1000).unwrap();
    assert_eq!(ms.payload_size, Some(1000));
    // total = 13 + 0 + 1000 = 1013 = 0x03F5.
    assert_eq!(headers, vec![0, 0, 0, 0, 0, 0, 0x03, 0xF5, 255, 0, 0, 0, 0]);
}

#[test]
fn client_sender_without_file_has_no_payload() {
    let mut ms = parfs::client::message::sender::MessageSender::new(
        MessageKind::Ls,
        String::new(),
        None,
    );
    let headers = ms.generate_message(12345).unwrap();
    assert_eq!(ms.payload_size, None);
    assert_eq!(headers, vec![0, 0, 0, 0, 0, 0, 0, 13, 30, 0, 0, 0, 0]);
}

#[test]
fn server_receiver_reads_what_the_sender_wrote() {
    let ms = parfs::server::message::sender::MessageSender::new(
        MessageKind::Cd,
        String::from("subdir"),
        None,
    );
    let bytes = ms.generate_headers(0).unwrap();
    let headers = bytes[..13].to_vec();
    let argument = bytes[13..].to_vec();
    let mr = parfs::server::message::receiver::MessageReceiver::new(&headers, &argument).unwrap();
    assert_eq!(mr.command, MessageKind::Cd);
    assert_eq!(mr.arguments, "subdir");
    assert_eq!(mr.payload_size, 0);
}

#[test]
fn client_receiver_reads_what_the_sender_wrote() {
    let ms = parfs::server::message::sender::MessageSender::new(
        MessageKind::Success,
        String::from("~/subdir/"),
        None,
    );
    let bytes = ms.generate_headers(0).unwrap();
    let headers = bytes[..13].to_vec();
    let argument = bytes[13..].to_vec();
    let mr = parfs::client::message::receiver::MessageReceiver::new(&headers, &argument).unwrap();
    assert_eq!(mr.command, MessageKind::Success);
    assert_eq!(mr.arguments, "~/subdir/");
}

#[test]
fn non_ascii_argument_survives_the_wire() {
    let ms = parfs::server::message::sender::MessageSender::new(
        MessageKind::Error,
        String::from("héllo wörld ✓"),
        None,
    );
    let bytes = ms.generate_headers(7).unwrap();
    let headers = bytes[..13].to_vec();
    let argument = bytes[13..].to_vec();
    let mr = parfs::server::message::receiver::MessageReceiver::new(&headers, &argument).unwrap();
    assert_eq!(mr.arguments, "héllo wörld ✓");
    assert_eq!(mr.payload_size, 7);
}

#[test]
fn receiver_rejects_invalid_utf8_argument() {
    let headers = parfs::codec::encode_header(MessageKind::Cd, 2, 0);
    let argument = vec![0xff, 0xfe];
    match parfs::server::message::receiver::MessageReceiver::new(&headers, &argument) {
        Err(ProtocolError::InvalidArgument) => {},
        other => panic!("expected InvalidArgument, got {:?}", other),
    }
}

#[test]
fn receiver_rejects_wrong_argument_length() {
    let headers = parfs::codec::encode_header(MessageKind::Cd, 5, 0);
    let argument = vec![b'a', b'b'];
    match parfs::client::message::receiver::MessageReceiver::new(&headers, &argument) {
        Err(ProtocolError::ArgumentSizeMismatch) => {},
        other => panic!("expected ArgumentSizeMismatch, got {:?}", other),
    }
}

#[test]
fn receiver_rejects_unknown_kind() {
    let mut headers = parfs::codec::encode_header(MessageKind::Cd, 0, 0);
    headers[8] = 42;
    match parfs::server::message::receiver::MessageReceiver::new(&headers, &Vec::new()) {
        Err(ProtocolError::UnknownKind(42)) => {},
        other => panic!("expected UnknownKind, got {:?}", other),
    }
}

#[test]
fn round_trip_kind_argument_payload() {
    // Encode a full message, then decode: kind, argument text and payload
    // bytes come back unchanged.
    let argument_text = String::from("dir/name");
    let payload: Vec<u8> = (0..100u8).collect();
    let ms = parfs::server::message::sender::MessageSender::new(
        MessageKind::File,
        argument_text.clone(),
        Some(String::from("/srv/root/f")),
    );
    let mut wire = ms.generate_headers(payload.len() as u64).unwrap();
    wire.extend_from_slice(&payload);

    let headers = wire[..13].to_vec();
    let (k, a, p) = parfs::codec::decode_message_bytes(&wire).unwrap();
    assert_eq!(k, MessageKind::File);
    assert_eq!(a, argument_text.as_bytes());
    assert_eq!(p, payload);
    let mr = parfs::server::message::receiver::MessageReceiver::new(&headers, &a).unwrap();
    assert_eq!(mr.command, MessageKind::File);
    assert_eq!(mr.arguments, argument_text);
    assert_eq!(mr.payload_size, payload.len() as u64);
}
