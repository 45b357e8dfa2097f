//! The client's view of wire messages: outgoing and incoming.

pub mod receiver;
pub mod sender;
