//! Responses of the magnetorquer handler.

use vstd::prelude::*;

use crate::types::acs::mgt::HkSet;
use crate::types::{DeviceMode, Message, MessageType};

verus! {

#[derive(Debug, Clone, Copy, PartialEq, Eq, Structural)]
pub enum ModeResponse {
    /// New mode has been set.
    Mode(DeviceMode),
    /// Setting a mode timed out.
    SetModeTimeout,
}

#[derive(Debug, Clone, Copy, PartialEq, Eq, Structural)]
pub enum Response {
    Success,
    Hk(HkSet),
    Mode(ModeResponse),
    /// The command requires the device to be in normal mode.
    NotInNormalMode,
}

impl Message for Response {
    open spec fn spec_message_type(&self) -> MessageType {
        match self {
            Response::Success | Response::NotInNormalMode => MessageType::Verification,
            Response::Hk(_) => MessageType::Hk,
            Response::Mode(_) => MessageType::Mode,
        }
    }

    fn message_type(&self) -> (message_type: MessageType) {
        match self {
            Response::Success | Response::NotInNormalMode => MessageType::Verification,
            Response::Hk(_) => MessageType::Hk,
            Response::Mode(_) => MessageType::Mode,
        }
    }
}

} // verus!
