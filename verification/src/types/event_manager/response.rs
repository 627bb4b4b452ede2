//! Responses of the event manager.

use vstd::prelude::*;

use crate::types::{Message, MessageType};

verus! {

#[derive(Debug, Clone, Copy, PartialEq, Eq, Structural)]
pub enum Response {
    Success,
}

impl Message for Response {
    open spec fn spec_message_type(&self) -> MessageType {
        MessageType::Verification
    }

    fn message_type(&self) -> (message_type: MessageType) {
        MessageType::Verification
    }
}

} // verus!
