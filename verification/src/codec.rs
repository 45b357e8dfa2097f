//! Encoding and decoding of framed wire messages.
//!
//! A message starts with a fixed 13-byte header: the total size of the message
//! (8 bytes, big-endian), the kind tag (1 byte), and the byte length of the
//! UTF-8 argument (4 bytes, big-endian). The argument bytes follow the header,
//! and an optional binary payload follows the argument. The payload length is
//! not transmitted directly: a receiver computes it as
//! `total_size - header_size - argument_length`.

use vstd::prelude::*;

use crate::endian::{
    be_bytes_u32, be_bytes_u64, lemma_u32_be_roundtrip, lemma_u64_be_roundtrip, push_u32_be,
    push_u64_be, u32_from_be_bytes, u32_of_be, u64_from_be_bytes, u64_of_be,
};
use crate::message::{is_kind_code, kind_code, MessageKind};
use vstd::utf8::{decode_utf8, valid_utf8};

verus! {

/// Turns argument bytes read off the wire back into text.
///
/// Relies on std's `str::from_utf8`: it returns `Ok` exactly when the bytes
/// are valid UTF-8, and then the string's characters are the ones the bytes
/// encode.
#[verifier::external_body]
pub(crate) fn utf8_to_string(v: &Vec<u8>) -> (r: Option<String>)
    ensures
        r is Some <==> valid_utf8(v@),
        r is Some ==> r->0@ == decode_utf8(v@),
{
    match std::str::from_utf8(v.as_slice()) {
        Ok(s) => Some(s.to_owned()),
        Err(_) => None,
    }
}

/// A protocol-fatal condition found while reading a message from the stream.
#[derive(Debug, Clone, Copy, PartialEq, Eq, Structural)]
pub enum ProtocolError {
    /// The header's kind byte is not a known kind code; the named byte is it.
    UnknownKind(u8),
    /// The header's total size is smaller than the header and argument demand.
    BadLength,
    /// Fewer or more argument bytes were supplied than the header announced.
    ArgumentSizeMismatch,
    /// The argument bytes are not valid UTF-8.
    InvalidArgument,
}

/// The three header fields of a wire message, as read from its first 13 bytes.
#[derive(Debug, Clone, Copy, PartialEq, Eq, Structural)]
pub struct Header {
    pub kind: MessageKind,
    pub argument_length: u32,
    pub payload_length: u64,
}

/// The message kind a known code byte stands for.
pub open spec fn kind_of_code(value: u8) -> MessageKind
    recommends
        is_kind_code(value),
{
    if value == 1 {
        MessageKind::Connect
    } else if value == 2 {
        MessageKind::Login
    } else if value == 3 {
        MessageKind::Success
    } else if value == 4 {
        MessageKind::Error
    } else if value == 10 {
        MessageKind::Mkdir
    } else if value == 20 {
        MessageKind::Cd
    } else if value == 30 {
        MessageKind::Ls
    } else {
        if value == 100 {
            MessageKind::Up
        } else if value == 200 {
            MessageKind::Down
        } else {
            MessageKind::File
        }
    }
}

/// Reading back a written kind code yields the kind it was written for.
pub proof fn lemma_kind_of_code_roundtrip(kind: MessageKind)
    ensures
        kind_of_code(kind_code(kind)) == kind,
{
}

/// Whether the header fields fit the wire format: the total size must fit in
/// its 8-byte field.
pub open spec fn header_wf(argument_length: u32, payload_length: u64) -> bool {
    13 + argument_length + payload_length <= u64::MAX
}

/// The 13 header bytes for a message of the given kind and sizes.
pub open spec fn spec_header_bytes(kind: MessageKind, argument_length: u32, payload_length: u64) -> Seq<u8>
    recommends
        header_wf(argument_length, payload_length),
{
    be_bytes_u64((13 + argument_length + payload_length) as u64) + seq![kind_code(kind)]
        + be_bytes_u32(argument_length)
}

/// Whether a message with this argument and payload fits the wire format.
pub open spec fn message_wf(argument: Seq<u8>, payload: Seq<u8>) -> bool {
    argument.len() <= u32::MAX && 13 + argument.len() + payload.len() <= u64::MAX
}

/// The complete wire bytes of a message: header, argument bytes, payload.
pub open spec fn spec_message_bytes(kind: MessageKind, argument: Seq<u8>, payload: Seq<u8>) -> Seq<u8>
    recommends
        message_wf(argument, payload),
{
    spec_header_bytes(kind, argument.len() as u32, payload.len() as u64) + argument + payload
}

/// The header read from 13 header bytes, or `None` when the kind byte is
/// unknown or the total size is smaller than the header and argument demand.
pub open spec fn spec_decode_header(b: Seq<u8>) -> Option<Header>
    recommends
        b.len() == 13,
{
    let total = u64_of_be(b.subrange(0, 8));
    let code = b[8];
    let alen = u32_of_be(b.subrange(9, 13));
    if is_kind_code(code) && total >= 13 + alen {
        Some(
            Header {
                kind: kind_of_code(code),
                argument_length: alen,
                payload_length: (total - 13 - alen) as u64,
            },
        )
    } else {
        None
    }
}

/// The kind, argument bytes and payload bytes read from one complete wire
/// message, or `None` when the bytes are not one well-formed message.
pub open spec fn spec_decode_message(b: Seq<u8>) -> Option<(MessageKind, Seq<u8>, Seq<u8>)> {
    if b.len() < 13 {
        None
    } else {
        match spec_decode_header(b.subrange(0, 13)) {
            Some(h) => {
                if b.len() == 13 + h.argument_length + h.payload_length {
                    Some(
                        (
                            h.kind,
                            b.subrange(13, 13 + h.argument_length as int),
                            b.subrange(13 + h.argument_length as int, b.len() as int),
                        ),
                    )
                } else {
                    None
                }
            },
            None => None,
        }
    }
}

/// Whether a message with this argument text and payload size fits the wire
/// format's header fields.
pub open spec fn sender_wf(arguments: Seq<char>, payload_length: u64) -> bool {
    vstd::utf8::encode_utf8(arguments).len() <= u32::MAX && 13 + vstd::utf8::encode_utf8(
        arguments,
    ).len() + payload_length <= u64::MAX
}

/// The bytes a sender puts on the wire before any payload: the 13-byte header
/// followed by the argument's UTF-8 bytes.
pub open spec fn spec_headers(kind: MessageKind, arguments: Seq<char>, payload_length: u64) -> Seq<
    u8,
>
    recommends
        sender_wf(arguments, payload_length),
{
    spec_header_bytes(
        kind,
        vstd::utf8::encode_utf8(arguments).len() as u32,
        payload_length,
    ) + vstd::utf8::encode_utf8(arguments)
}

/// How many payload bytes to move next when streaming with a buffer of
/// `capacity` bytes: a full buffer, or the bounded remainder tail for the
/// final chunk — never more than the message's payload has left, so a reader
/// cannot run over into the next message.
pub fn next_chunk_len(remaining: u64, capacity: u64) -> (r: u64)
    ensures
        r == if remaining < capacity {
            remaining
        } else {
            capacity
        },
        r <= remaining,
        r <= capacity,
{
    if remaining < capacity {
        remaining
    } else {
        capacity
    }
}

/// Builds the 13 header bytes for a message of the given kind and sizes.
pub fn encode_header(kind: MessageKind, argument_length: u32, payload_length: u64) -> (r: Vec<u8>)
    requires
        header_wf(argument_length, payload_length),
    ensures
        r@ == spec_header_bytes(kind, argument_length, payload_length),
        r@.len() == 13,
{
    let total: u64 = 13 + argument_length as u64 + payload_length;
    let mut r: Vec<u8> = Vec::new();
    push_u64_be(&mut r, total);
    r.push(kind.to_u8());
    push_u32_be(&mut r, argument_length);
    proof {
        assert(r@ =~= spec_header_bytes(kind, argument_length, payload_length));
    }
    r
}

/// Copies the bytes of `b` between `start` and `end` into a fresh vector.
fn copy_range(b: &Vec<u8>, start: usize, end: usize) -> (r: Vec<u8>)
    requires
        start <= end <= b@.len(),
    ensures
        r@ == b@.subrange(start as int, end as int),
{
    let mut r: Vec<u8> = Vec::new();
    let mut i: usize = start;
    while i < end
        invariant
            start <= i <= end <= b@.len(),
            r@ == b@.subrange(start as int, i as int),
        decreases end - i,
    {
        r.push(b[i]);
        i = i + 1;
        proof {
            assert(r@ =~= b@.subrange(start as int, i as int));
        }
    }
    r
}

/// Builds the complete wire bytes for a message: header, argument bytes and
/// payload. Returns `None` when the sizes do not fit the wire format's
/// fields.
pub fn encode_message_bytes(kind: MessageKind, argument: &Vec<u8>, payload: &Vec<u8>) -> (r: Option<
    Vec<u8>,
>)
    ensures
        r is Some <==> message_wf(argument@, payload@),
        r is Some ==> r->0@ == spec_message_bytes(kind, argument@, payload@),
{
    let alen: usize = argument.len();
    let plen: usize = payload.len();
    if alen as u64 > u32::MAX as u64 {
        return None;
    }
    if plen as u64 > u64::MAX - 13 - alen as u64 {
        return None;
    }
    let mut r = encode_header(kind, alen as u32, plen as u64);
    let mut arg_copy = copy_range(argument, 0, alen);
    let mut payload_copy = copy_range(payload, 0, plen);
    r.append(&mut arg_copy);
    r.append(&mut payload_copy);
    proof {
        assert(argument@.subrange(0, alen as int) =~= argument@);
        assert(payload@.subrange(0, plen as int) =~= payload@);
        assert(r@ =~= spec_message_bytes(kind, argument@, payload@));
    }
    Some(r)
}

/// Reads the header fields from the 13 header bytes, reporting an unknown
/// kind byte or an impossible total size as the protocol-fatal error it is.
pub fn decode_header(b: &Vec<u8>) -> (r: Result<Header, ProtocolError>)
    requires
        b@.len() == 13,
    ensures
        r is Ok <==> spec_decode_header(b@) is Some,
        r is Ok ==> spec_decode_header(b@) == Some(r->Ok_0),
        r is Err && !is_kind_code(b@[8]) ==> r->Err_0 == ProtocolError::UnknownKind(b@[8]),
        r is Err && is_kind_code(b@[8]) ==> r->Err_0 == ProtocolError::BadLength,
{
    let total: u64 = u64_from_be_bytes(b, 0);
    let code: u8 = b[8];
    let alen: u32 = u32_from_be_bytes(b, 9);
    proof {
        assert(b@.subrange(0, 8) =~= b@.subrange(0 as int, 0 as int + 8));
        assert(b@.subrange(9, 13) =~= b@.subrange(9 as int, 9 as int + 4));
    }
    let kind = match MessageKind::from_u8_checked(code) {
        Some(kind) => kind,
        None => {
            return Err(ProtocolError::UnknownKind(code));
        },
    };
    if total < 13 + alen as u64 {
        return Err(ProtocolError::BadLength);
    }
    proof {
        assert(kind_of_code(kind_code(kind)) == kind);
    }
    Ok(Header { kind, argument_length: alen, payload_length: total - 13 - alen as u64 })
}

/// Splits one complete wire message into its kind, argument bytes and payload
/// bytes, reporting a malformed header or a size mismatch.
pub fn decode_message_bytes(b: &Vec<u8>) -> (r: Result<(MessageKind, Vec<u8>, Vec<u8>), ProtocolError>)
    ensures
        r is Ok <==> spec_decode_message(b@) is Some,
        r is Ok ==> spec_decode_message(b@) == Some(
            (r->Ok_0.0, r->Ok_0.1@, r->Ok_0.2@),
        ),
{
    let n: usize = b.len();
    if n < 13 {
        return Err(ProtocolError::BadLength);
    }
    let header_bytes = copy_range(b, 0, 13);
    let header = match decode_header(&header_bytes) {
        Ok(h) => h,
        Err(e) => {
            return Err(e);
        },
    };
    let alen: usize = header.argument_length as usize;
    proof {
        // The decoded payload length is the total less the header and
        // argument, so summing them back cannot overflow.
        let total = u64_of_be(header_bytes@.subrange(0, 8));
        assert(13 + header.argument_length + header.payload_length == total);
    }
    if n as u64 != 13 + header.argument_length as u64 + header.payload_length {
        return Err(ProtocolError::ArgumentSizeMismatch);
    }
    let argument = copy_range(b, 13, 13 + alen);
    let payload = copy_range(b, 13 + alen, n);
    Ok((header.kind, argument, payload))
}

/// Round-trip law: decoding the encoding of any message that fits the wire
/// format yields the same kind, the same argument bytes and the same payload
/// bytes.
pub proof fn lemma_message_roundtrip(kind: MessageKind, argument: Seq<u8>, payload: Seq<u8>)
    requires
        message_wf(argument, payload),
    ensures
        spec_decode_message(spec_message_bytes(kind, argument, payload)) == Some(
            (kind, argument, payload),
        ),
{
    let alen = argument.len() as u32;
    let plen = payload.len() as u64;
    let total = (13 + argument.len() + payload.len()) as u64;
    let h = spec_header_bytes(kind, alen, plen);
    let b = spec_message_bytes(kind, argument, payload);
    assert(h.len() == 13);
    assert(b.subrange(0, 13) =~= h);
    assert(h.subrange(0, 8) =~= be_bytes_u64(total));
    assert(h.subrange(9, 13) =~= be_bytes_u32(alen));
    lemma_u64_be_roundtrip(total);
    lemma_u32_be_roundtrip(alen);
    assert(h[8] == kind_code(kind));
    lemma_kind_of_code_roundtrip(kind);
    let header = spec_decode_header(b.subrange(0, 13));
    assert(header == Some(Header { kind, argument_length: alen, payload_length: plen }));
    assert(b.subrange(13, 13 + alen as int) =~= argument);
    assert(b.subrange(13 + alen as int, b.len() as int) =~= payload);
}

/// Round-trip law for a message with a text argument, as the senders build it
/// and the receivers read it: the wire bytes decode to the same kind, the
/// argument bytes decode back to the same text, and the payload comes back
/// byte for byte.
pub proof fn lemma_text_message_roundtrip(
    kind: MessageKind,
    arguments: Seq<char>,
    payload: Seq<u8>,
)
    requires
        payload.len() <= u64::MAX,
        sender_wf(arguments, payload.len() as u64),
    ensures
        spec_decode_message(spec_headers(kind, arguments, payload.len() as u64) + payload) == Some(
            (kind, vstd::utf8::encode_utf8(arguments), payload),
        ),
        valid_utf8(vstd::utf8::encode_utf8(arguments)),
        decode_utf8(vstd::utf8::encode_utf8(arguments)) == arguments,
{
    let arg = vstd::utf8::encode_utf8(arguments);
    assert(spec_headers(kind, arguments, payload.len() as u64) + payload =~= spec_message_bytes(
        kind,
        arg,
        payload,
    ));
    lemma_message_roundtrip(kind, arg, payload);
    vstd::utf8::encode_utf8_valid_utf8(arguments);
    vstd::utf8::encode_utf8_decode_utf8(arguments);
}

} // verus!
