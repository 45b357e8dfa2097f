//! The client side: the interactive session's verified logic.

pub mod connection;
pub mod errors;
pub mod message;
pub mod utilities;
