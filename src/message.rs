//! The three Remote-ID message kinds and the decoder that dispatches among them.
pub mod base_message;
pub mod message;
pub mod position_vector_message;
pub mod system_message;

use vstd::prelude::*;

use base_message::BaseMessage;
use message::{spec_message_type, Message, MessageError, MessageType};
use position_vector_message::PositionVectorMessage;
use system_message::SystemMessage;

verus! {

/// One decoded pack: exactly one of the three message kinds.
#[derive(Debug, Clone, PartialEq)]
pub enum AnyMessage {
    Base(BaseMessage),
    PositionVector(PositionVectorMessage),
    System(SystemMessage),
}

/// The message type nibble: the high half of a pack's first byte.
pub open spec fn type_nibble(b: u8) -> u8 {
    (b >> 4u8) & 0x0f
}

impl AnyMessage {
    /// Holds when `r` is the outcome of decoding the whole pack `data`: the
    /// type nibble picks the decoder, which reads the bytes after the first.
    pub open spec fn decodes_to(data: Seq<u8>, r: Result<AnyMessage, MessageError>) -> bool {
        if data.len() == 0 {
            r == Err::<AnyMessage, MessageError>(MessageError::InsufficientLength(1, 0))
        } else {
            let content = data.subrange(1, data.len() as int);
            match spec_message_type(type_nibble(data[0])) {
                None => r == Err::<AnyMessage, MessageError>(
                    MessageError::UnknownMessageType(type_nibble(data[0])),
                ),
                Some(MessageType::BaseMessageType) => match r {
                    Ok(AnyMessage::Base(m)) => BaseMessage::decodes_to(content, Ok(m)),
                    Ok(_) => false,
                    Err(e) => BaseMessage::decodes_to(content, Err(e)),
                },
                Some(MessageType::PositionVectorMessageType) => match r {
                    Ok(AnyMessage::PositionVector(m)) => PositionVectorMessage::decodes_to(
                        content,
                        Ok(m),
                    ),
                    Ok(_) => false,
                    Err(e) => PositionVectorMessage::decodes_to(content, Err(e)),
                },
                Some(MessageType::SystemMessageType) => match r {
                    Ok(AnyMessage::System(m)) => SystemMessage::decodes_to(content, Ok(m)),
                    Ok(_) => false,
                    Err(e) => SystemMessage::decodes_to(content, Err(e)),
                },
            }
        }
    }

    /// Decodes one whole pack, type byte included.
    pub fn from_bytes(data: &[u8]) -> (r: Result<Self, MessageError>)
        ensures
            Self::decodes_to(data@, r),
            data@.len() > 0 && spec_message_type(type_nibble(data@[0])) is None ==> r
                == Err::<AnyMessage, MessageError>(
                MessageError::UnknownMessageType(type_nibble(data@[0])),
            ),
    {
        if data.len() == 0 {
            return Err(MessageError::InsufficientLength(1, 0));
        }
        let nibble = (data[0] >> 4u8) & 0x0f;
        let content = &data[1..data.len()];
        assert(content@ == data@.subrange(1, data@.len() as int));
        match MessageType::from_nibble(nibble) {
            Some(MessageType::BaseMessageType) => match BaseMessage::from_bytes(content) {
                Ok(m) => Ok(AnyMessage::Base(m)),
                Err(e) => Err(e),
            },
            Some(MessageType::PositionVectorMessageType) => match PositionVectorMessage::from_bytes(
                content,
            ) {
                Ok(m) => Ok(AnyMessage::PositionVector(m)),
                Err(e) => Err(e),
            },
            Some(MessageType::SystemMessageType) => match SystemMessage::from_bytes(content) {
                Ok(m) => Ok(AnyMessage::System(m)),
                Err(e) => Err(e),
            },
            None => Err(MessageError::UnknownMessageType(nibble)),
        }
    }
}

} // verus!
