//! A client/server remote-filesystem protocol library.
//!
//! A server exposes a sandboxed directory tree over a byte stream; clients
//! browse, create directories, and transfer files through a small command set.
//! This crate holds the verified core: the framed binary wire codec, the
//! keyed reader/writer lock registry, the server session state machine with
//! its sandbox containment rules, and the client session logic. The I/O that
//! drives these (sockets, files, threads) lives outside the library and hands
//! in plain values.

pub mod client;
pub mod codec;
pub mod endian;
pub mod errors;
pub mod message;
pub mod paths;
pub mod server;

use vstd::prelude::*;

verus! {

/// Size in bytes of a wire-message header: an 8-byte total size, a 1-byte
/// kind tag, and a 4-byte argument length.
pub const HEADER_SIZE: usize = 13;

/// Chunk size used when streaming file payloads.
pub const BUFFER_SIZE: usize = 1048576;

} // verus!
