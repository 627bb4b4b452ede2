//! Requests to the magnetorquer handler.

use vstd::prelude::*;

use crate::health::HealthState;
use crate::time::Duration;
use crate::types::acs::mgt::Dipole;
use crate::types::{DeviceMode, HkRequestType, Message, MessageType};

verus! {

#[derive(Debug, Clone, Copy, PartialEq, Eq, Structural)]
pub enum ModeRequest {
    SetMode(DeviceMode),
    ReadMode,
}

#[derive(Debug, Clone, Copy, PartialEq, Eq, Structural)]
pub enum HealthRequest {
    /// Overrides the device's autonomous FDIR health state, for example to clear a `Faulty`
    /// state set by the handler after ground has fixed or worked around the underlying issue.
    SetHealth(HealthState),
}

#[derive(Debug, Clone, Copy, PartialEq, Eq, Structural)]
pub enum Request {
    Ping,
    Hk(HkRequestType),
    Mode(ModeRequest),
    Health(HealthRequest),
    /// Only accepted in normal mode.
    ApplyTorque { dipole: Dipole, duration: Duration },
}

impl Message for Request {
    open spec fn spec_message_type(&self) -> MessageType {
        match self {
            Request::Ping => MessageType::Verification,
            Request::Hk(_) => MessageType::Hk,
            Request::Mode(_) => MessageType::Mode,
            Request::Health(_) => MessageType::Health,
            Request::ApplyTorque { .. } => MessageType::Action,
        }
    }

    fn message_type(&self) -> (message_type: MessageType) {
        match self {
            Request::Ping => MessageType::Verification,
            Request::Hk(_) => MessageType::Hk,
            Request::Mode(_) => MessageType::Mode,
            Request::Health(_) => MessageType::Health,
            Request::ApplyTorque { .. } => MessageType::Action,
        }
    }
}

} // verus!
