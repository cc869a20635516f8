//! What every message decoder shares: its error type, the message kinds and
//! the decoding trait.
use vstd::prelude::*;

verus! {

#[verifier::external_type_specification]
#[verifier::external_body]
pub struct ExUtf8Error(std::str::Utf8Error);

/// Why a pack, or the element or frame around it, could not be decoded.
#[derive(Debug, PartialEq)]
pub enum MessageError {
    /// Fewer bytes than the decoder needs: (needed, given).
    InsufficientLength(usize, usize),
    /// The identity bytes are not valid UTF-8.
    InvalidText(std::str::Utf8Error),
    /// The type nibble names no message kind that is decoded here.
    UnknownMessageType(u8),
    /// A system message whose classification region is not 1, 2 or 3.
    InvalidClassification,
    /// A declared length or count points past the end of the buffer.
    BoundsError,
}

/// The message kinds, by the type nibble in the high half of a pack's first byte.
#[derive(Debug, Clone, Copy, PartialEq, Eq, Structural)]
pub enum MessageType {
    BaseMessageType,
    PositionVectorMessageType,
    SystemMessageType,
}

/// The message kind that a type nibble names, if any.
pub open spec fn spec_message_type(nibble: u8) -> Option<MessageType> {
    if nibble == 0 {
        Some(MessageType::BaseMessageType)
    } else if nibble == 1 {
        Some(MessageType::PositionVectorMessageType)
    } else if nibble == 4 {
        Some(MessageType::SystemMessageType)
    } else {
        None
    }
}

impl MessageType {
    pub fn from_nibble(nibble: u8) -> (r: Option<MessageType>)
        ensures
            r == spec_message_type(nibble),
    {
        match nibble {
            0 => Some(MessageType::BaseMessageType),
            1 => Some(MessageType::PositionVectorMessageType),
            4 => Some(MessageType::SystemMessageType),
            _ => None,
        }
    }
}

/// A decoder of one message kind, from the bytes of a pack that follow its type byte.
pub trait Message: Sized {
    /// The fewest bytes that the decoder looks at.
    spec fn min_len() -> usize;

    /// Holds when `r` is the outcome of decoding `data`.
    spec fn decodes_to(data: Seq<u8>, r: Result<Self, MessageError>) -> bool;

    fn from_bytes(data: &[u8]) -> (r: Result<Self, MessageError>)
        ensures
            Self::decodes_to(data@, r),
            data@.len() < Self::min_len() <==> r == Err::<Self, MessageError>(
                MessageError::InsufficientLength(Self::min_len(), data@.len() as usize),
            ),
    ;
}

} // verus!
