//! Magnetorquer (MGT) types.

use vstd::prelude::*;

use crate::fdir::RecoveryEvent;
use crate::types::{
    recovery_event_id, spec_recovery_event_id, DeviceMode, EventId, Message, MessageType,
};

pub mod request;
pub mod response;

verus! {

/// Commanded magnetic dipole. Simple model using raw values per axis.
#[derive(Debug, Clone, Copy, PartialEq, Eq, Structural)]
pub struct Dipole {
    pub x: i16,
    pub y: i16,
    pub z: i16,
}

impl Default for Dipole {
    fn default() -> (dipole: Self)
        ensures
            dipole == (Dipole { x: 0, y: 0, z: 0 }),
    {
        Dipole { x: 0, y: 0, z: 0 }
    }
}

/// Housekeeping data of the magnetorquer.
#[derive(Debug, Clone, Copy, PartialEq, Eq, Structural)]
pub struct HkSet {
    pub valid: bool,
    pub dipole: Dipole,
    pub torquing: bool,
}

impl HkSet {
    /// Invalid set without any data.
    pub open spec fn spec_default() -> HkSet {
        HkSet { valid: false, dipole: Dipole { x: 0, y: 0, z: 0 }, torquing: false }
    }
}

impl Default for HkSet {
    fn default() -> (hk_set: Self)
        ensures
            hk_set == HkSet::spec_default(),
    {
        HkSet { valid: false, dipole: Dipole { x: 0, y: 0, z: 0 }, torquing: false }
    }
}

/// Events of the magnetorquer handler.
#[derive(Debug, Clone, Copy, PartialEq, Eq, Structural)]
pub enum Event {
    /// The communication fault counter exceeded its threshold. Followed by a recovery event.
    CommFaultThresholdExceeded,
    /// A commanded or autonomous mode transition completed.
    ModeChanged(DeviceMode),
    Recovery(RecoveryEvent),
}

impl Message for Event {
    open spec fn spec_message_type(&self) -> MessageType {
        MessageType::Event
    }

    fn message_type(&self) -> (message_type: MessageType) {
        MessageType::Event
    }
}

impl EventId for Event {
    open spec fn spec_event_id(&self) -> u16 {
        match self {
            Event::CommFaultThresholdExceeded => 0,
            Event::ModeChanged(_) => 1,
            Event::Recovery(event) => spec_recovery_event_id(*event),
        }
    }

    fn event_id(&self) -> (id: u16) {
        match self {
            Event::CommFaultThresholdExceeded => 0,
            Event::ModeChanged(_) => 1,
            Event::Recovery(event) => recovery_event_id(*event),
        }
    }
}

} // verus!
