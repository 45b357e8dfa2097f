//! The client's outgoing messages.
//!
//! A `MessageSender` describes one message to put on the wire: its kind, its
//! text argument, and, for a `File` message, the local path of the file whose
//! bytes follow as the payload. Building the header and argument bytes is
//! verified here; measuring the file and pushing its bytes through the socket
//! is the caller's part.

use vstd::prelude::*;

use crate::codec::{encode_header, sender_wf, spec_headers};
use crate::message::MessageKind;
use vstd::string::StrSliceExecFns;

verus! {

/// One message the client is about to send. `file_path` names the local file
/// whose contents form the payload, for `File`-kind messages; `payload_size`
/// records the measured size once the headers have been built.
#[derive(Debug)]
pub struct MessageSender {
    pub command: MessageKind,
    pub arguments: String,
    pub file_path: Option<String>,
    pub payload_size: Option<u64>,
}

impl MessageSender {
    /// Describes a message to send.
    pub fn new(command: MessageKind, arguments: String, file_path: Option<String>) -> (r: Self)
        ensures
            r.command == command,
            r.arguments == arguments,
            r.file_path == file_path,
            r.payload_size is None,
    {
        Self { command, arguments, file_path, payload_size: None }
    }

    /// Builds the header and argument bytes of this message, given the length
    /// the caller measured for the named file; a message without a file
    /// carries no payload, whatever was measured. Records the payload size
    /// for the transfer that follows. Returns `None` when the sizes do not
    /// fit the wire format's fields.
    pub fn generate_message(&mut self, payload_length: u64) -> (r: Option<Vec<u8>>)
        ensures
            ({
                let effective: u64 = if old(self).file_path is Some {
                    payload_length
                } else {
                    0
                };
                &&& (r is Some <==> sender_wf(old(self).arguments@, effective))
                &&& (r is Some ==> r->0@ == spec_headers(
                    old(self).command,
                    old(self).arguments@,
                    effective,
                ))
                &&& final(self).payload_size == if old(self).file_path is Some {
                    Some(effective)
                } else {
                    old(self).payload_size
                }
            }),
            final(self).command == old(self).command,
            final(self).arguments == old(self).arguments,
            final(self).file_path == old(self).file_path,
    {
        let payload_length: u64 = match &self.file_path {
            Some(_) => {
                self.payload_size = Some(payload_length);
                payload_length
            },
            None => 0,
        };
        let argument_bytes = self.arguments.as_str().as_bytes_vec();
        let alen: usize = argument_bytes.len();
        if alen as u64 > u32::MAX as u64 {
            return None;
        }
        if payload_length > u64::MAX - 13 - alen as u64 {
            return None;
        }
        let mut headers = encode_header(self.command, alen as u32, payload_length);
        let mut arg_copy = argument_bytes;
        headers.append(&mut arg_copy);
        proof {
            assert(headers@ =~= spec_headers(self.command, self.arguments@, payload_length));
        }
        Some(headers)
    }
}

} // verus!
