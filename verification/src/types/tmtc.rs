//! Types of the telecommand sources.

use vstd::prelude::*;

use crate::types::{ComponentId, EventId, Message, MessageType};

verus! {

#[derive(Debug, Clone, Copy, PartialEq, Eq, Structural)]
pub enum Event {
    /// A received CCSDS packet failed CRC or basic format validation.
    InvalidTcPacket,
    /// The CCSDS packet was valid, but its embedded TC header could not be decoded.
    InvalidTcHeader,
    /// The TC header decoded fine, but no handler is registered for its target ID.
    UnknownTargetId(ComponentId),
}

impl Message for Event {
    open spec fn spec_message_type(&self) -> MessageType {
        MessageType::Event
    }

    fn message_type(&self) -> (message_type: MessageType) {
        MessageType::Event
    }
}

impl EventId for Event {
    open spec fn spec_event_id(&self) -> u16 {
        match self {
            Event::InvalidTcPacket => 0,
            Event::InvalidTcHeader => 1,
            Event::UnknownTargetId(_) => 2,
        }
    }

    fn event_id(&self) -> (id: u16) {
        match self {
            Event::InvalidTcPacket => 0,
            Event::InvalidTcHeader => 1,
            Event::UnknownTargetId(_) => 2,
        }
    }
}

} // verus!
