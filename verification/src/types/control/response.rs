//! Responses of the on-board controller.

use vstd::prelude::*;

use crate::types::control::Event;
use crate::types::{Message, MessageType};

verus! {

#[derive(Debug, Clone, Copy, PartialEq, Eq, Structural)]
pub enum Response {
    Success,
    Event(Event),
}

impl Message for Response {
    open spec fn spec_message_type(&self) -> MessageType {
        match self {
            Response::Success => MessageType::Verification,
            Response::Event(_) => MessageType::Event,
        }
    }

    fn message_type(&self) -> (message_type: MessageType) {
        match self {
            Response::Success => MessageType::Verification,
            Response::Event(_) => MessageType::Event,
        }
    }
}

} // verus!
