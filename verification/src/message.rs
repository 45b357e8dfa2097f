//! Message kinds of the wire protocol.

use vstd::prelude::*;

verus! {

/// The kind tag of a wire message. Each kind is carried on the wire as a
/// single byte, given by [`MessageKind::to_u8`].
#[derive(Debug, Clone, Copy, PartialEq, Eq, Structural)]
pub enum MessageKind {
    Connect,
    Login,
    Success,
    Error,
    Mkdir,
    Cd,
    Ls,
    Up,
    Down,
    File,
}

/// The byte that encodes a message kind on the wire.
pub open spec fn kind_code(kind: MessageKind) -> u8 {
    match kind {
        MessageKind::Connect => 1,
        MessageKind::Login => 2,
        MessageKind::Success => 3,
        MessageKind::Error => 4,
        MessageKind::Mkdir => 10,
        MessageKind::Cd => 20,
        MessageKind::Ls => 30,
        MessageKind::Up => 100,
        MessageKind::Down => 200,
        MessageKind::File => 255,
    }
}

/// Whether a byte is the code of some message kind.
pub open spec fn is_kind_code(value: u8) -> bool {
    value == 1 || value == 2 || value == 3 || value == 4 || value == 10 || value == 20
        || value == 30 || value == 100 || value == 200 || value == 255
}

impl MessageKind {
    /// The byte this kind is written as on the wire.
    pub fn to_u8(self) -> (r: u8)
        ensures
            r == kind_code(self),
    {
        match self {
            MessageKind::Connect => 1,
            MessageKind::Login => 2,
            MessageKind::Success => 3,
            MessageKind::Error => 4,
            MessageKind::Mkdir => 10,
            MessageKind::Cd => 20,
            MessageKind::Ls => 30,
            MessageKind::Up => 100,
            MessageKind::Down => 200,
            MessageKind::File => 255,
        }
    }

    /// The kind encoded by a byte. An unknown byte is a protocol-fatal
    /// condition, so callers must establish that the byte is a known code;
    /// [`MessageKind::from_u8_checked`] reports unknown bytes instead.
    pub fn from_u8(value: u8) -> (r: MessageKind)
        requires
            is_kind_code(value),
        ensures
            kind_code(r) == value,
    {
        match value {
            1 => MessageKind::Connect,
            2 => MessageKind::Login,
            3 => MessageKind::Success,
            4 => MessageKind::Error,
            10 => MessageKind::Mkdir,
            20 => MessageKind::Cd,
            30 => MessageKind::Ls,
            100 => MessageKind::Up,
            200 => MessageKind::Down,
            _ => MessageKind::File,
        }
    }

    /// The kind encoded by a byte, or `None` for an unknown byte.
    pub fn from_u8_checked(value: u8) -> (r: Option<MessageKind>)
        ensures
            r is Some <==> is_kind_code(value),
            r is Some ==> kind_code(r->0) == value,
    {
        match value {
            1 => Some(MessageKind::Connect),
            2 => Some(MessageKind::Login),
            3 => Some(MessageKind::Success),
            4 => Some(MessageKind::Error),
            10 => Some(MessageKind::Mkdir),
            20 => Some(MessageKind::Cd),
            30 => Some(MessageKind::Ls),
            100 => Some(MessageKind::Up),
            200 => Some(MessageKind::Down),
            255 => Some(MessageKind::File),
            _ => None,
        }
    }
}

} // verus!
