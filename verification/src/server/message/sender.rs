//! The server's outgoing messages.
//!
//! A `MessageSender` describes one message to put on the wire: its kind, its
//! text argument, and, for a `File` message, the path of the file whose bytes
//! follow as the payload. Building the header and argument bytes is verified
//! here; measuring the file and pushing its bytes through the socket is the
//! caller's part, as is taking the path's read lock in the registry for the
//! whole transfer.

use vstd::prelude::*;

use crate::codec::{encode_header, sender_wf, spec_headers};
use crate::message::MessageKind;
use vstd::string::StrSliceExecFns;

verus! {

/// One message the server is about to send. `file_path` names the file whose
/// contents form the payload, for `File`-kind messages; the path is the
/// canonical textual form of a sandbox-checked component path.
#[derive(Debug)]
pub struct MessageSender {
    pub command: MessageKind,
    pub arguments: String,
    pub file_path: Option<String>,
}

impl MessageSender {
    /// Describes a message to send.
    pub fn new(command: MessageKind, arguments: String, file_path: Option<String>) -> (r: Self)
        ensures
            r.command == command,
            r.arguments == arguments,
            r.file_path == file_path,
    {
        Self { command, arguments, file_path }
    }

    /// Builds the header and argument bytes of this message, given the
    /// payload length the caller measured (the file's size, or zero when no
    /// payload follows). Returns `None` when the sizes do not fit the wire
    /// format's fields.
    pub fn generate_headers(&self, payload_length: u64) -> (r: Option<Vec<u8>>)
        ensures
            r is Some <==> sender_wf(self.arguments@, payload_length),
            r is Some ==> r->0@ == spec_headers(self.command, self.arguments@, payload_length),
    {
        let argument_bytes = self.arguments.as_str().as_bytes_vec();
        let alen: usize = argument_bytes.len();
        if alen as u64 > u32::MAX as u64 {
            return None;
        }
        if payload_length > u64::MAX - 13 - alen as u64 {
            return None;
        }
        let mut headers = encode_header(self.command, alen as u32, payload_length);
        let mut arg_copy = argument_bytes;
        headers.append(&mut arg_copy);
        proof {
            assert(headers@ =~= spec_headers(self.command, self.arguments@, payload_length));
        }
        Some(headers)
    }
}

} // verus!
