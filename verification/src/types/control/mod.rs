//! Types of the on-board controller.

use vstd::prelude::*;

use crate::types::{EventId, Message, MessageType};

pub mod request;
pub mod response;

verus! {

#[derive(Debug, Clone, Copy, PartialEq, Eq, Structural)]
pub enum Event {
    TestEvent,
}

impl Message for Event {
    open spec fn spec_message_type(&self) -> MessageType {
        MessageType::Event
    }

    fn message_type(&self) -> (message_type: MessageType) {
        MessageType::Event
    }
}

impl EventId for Event {
    open spec fn spec_event_id(&self) -> u16 {
        match self {
            Event::TestEvent => 0,
        }
    }

    fn event_id(&self) -> (id: u16) {
        match self {
            Event::TestEvent => 0,
        }
    }
}

} // verus!
