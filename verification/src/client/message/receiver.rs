//! The client's incoming messages.
//!
//! A `MessageReceiver` is reconstructed from the 13 header bytes and the
//! argument bytes that the caller read off the stream; the payload, if any,
//! follows on the stream and is streamed into the local destination by the
//! caller. Parsing and validation are verified here.

use vstd::prelude::*;

use crate::codec::{spec_decode_header, utf8_to_string, ProtocolError};
use crate::message::{is_kind_code, MessageKind};
use vstd::utf8::{decode_utf8, valid_utf8};

verus! {

/// One message read from the wire: its kind, its text argument, and how many
/// payload bytes follow on the stream.
#[derive(Debug)]
pub struct MessageReceiver {
    pub command: MessageKind,
    pub arguments: String,
    pub payload_size: u64,
}

/// Whether 13 header bytes and the announced argument bytes form a message:
/// the header must decode, the argument bytes must be as many as announced,
/// and they must be UTF-8 text.
pub open spec fn receiver_ok(headers: Seq<u8>, argument_bytes: Seq<u8>) -> bool {
    &&& spec_decode_header(headers) is Some
    &&& argument_bytes.len() == spec_decode_header(headers)->0.argument_length
    &&& valid_utf8(argument_bytes)
}

impl MessageReceiver {
    /// Reconstructs a message from the 13 header bytes and the argument bytes
    /// read off the stream. Any mismatch is the protocol-fatal error it is:
    /// an unknown kind byte, an impossible total size, argument bytes that do
    /// not match the announced length, or argument bytes that are not UTF-8.
    pub fn new(headers: &Vec<u8>, argument_bytes: &Vec<u8>) -> (r: Result<Self, ProtocolError>)
        requires
            headers@.len() == 13,
        ensures
            r is Ok <==> receiver_ok(headers@, argument_bytes@),
            r is Ok ==> {
                let h = spec_decode_header(headers@)->0;
                &&& r->Ok_0.command == h.kind
                &&& r->Ok_0.arguments@ == decode_utf8(argument_bytes@)
                &&& r->Ok_0.payload_size == h.payload_length
            },
            r is Err && !is_kind_code(headers@[8]) ==> r->Err_0 == ProtocolError::UnknownKind(
                headers@[8],
            ),
    {
        let header = match crate::codec::decode_header(headers) {
            Ok(h) => h,
            Err(e) => {
                return Err(e);
            },
        };
        if argument_bytes.len() as u64 != header.argument_length as u64 {
            return Err(ProtocolError::ArgumentSizeMismatch);
        }
        let arguments = match utf8_to_string(argument_bytes) {
            Some(s) => s,
            None => {
                return Err(ProtocolError::InvalidArgument);
            },
        };
        Ok(Self { command: header.kind, arguments, payload_size: header.payload_length })
    }
}

} // verus!
