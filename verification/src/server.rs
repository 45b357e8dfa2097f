//! The server side: the lock registry and the per-connection session handler.

pub mod fsrw_mutex;
pub mod handler;
pub mod message;
