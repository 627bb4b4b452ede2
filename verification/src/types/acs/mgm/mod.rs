//! Magnetometer (MGM) types.

use vstd::prelude::*;

use crate::fdir::RecoveryEvent;
use crate::minisim::acs::mgm::RawValues;
use crate::types::{
    recovery_event_id, spec_recovery_event_id, DeviceMode, EventId, Message, MessageType,
};

pub mod request;
pub mod response;

verus! {

/// Sensor data of a magnetometer. The values are the raw counts of the last accepted readout;
/// one count is `100 / 6842` micro tesla.
#[derive(Debug, Clone, Copy, PartialEq, Eq, Structural)]
pub struct SensorData {
    pub valid: bool,
    pub raw: RawValues,
}

impl SensorData {
    /// Invalid set without any data.
    pub open spec fn spec_default() -> SensorData {
        SensorData { valid: false, raw: RawValues { x: 0, y: 0, z: 0 } }
    }
}

impl Default for SensorData {
    fn default() -> (data: Self)
        ensures
            data == SensorData::spec_default(),
    {
        SensorData { valid: false, raw: RawValues { x: 0, y: 0, z: 0 } }
    }
}

/// Events of a magnetometer handler.
#[derive(Debug, Clone, Copy, PartialEq, Eq, Structural)]
pub enum Event {
    /// The SPI fault counter exceeded its threshold. Followed by a recovery event.
    SpiFaultThresholdExceeded,
    /// A commanded or autonomous mode transition completed.
    ModeChanged(DeviceMode),
    Recovery(RecoveryEvent),
}

impl Message for Event {
    open spec fn spec_message_type(&self) -> MessageType {
        MessageType::Event
    }

    fn message_type(&self) -> (message_type: MessageType) {
        MessageType::Event
    }
}

impl EventId for Event {
    open spec fn spec_event_id(&self) -> u16 {
        match self {
            Event::SpiFaultThresholdExceeded => 0,
            Event::ModeChanged(_) => 1,
            Event::Recovery(event) => spec_recovery_event_id(*event),
        }
    }

    fn event_id(&self) -> (id: u16) {
        match self {
            Event::SpiFaultThresholdExceeded => 0,
            Event::ModeChanged(_) => 1,
            Event::Recovery(event) => recovery_event_id(*event),
        }
    }
}

} // verus!
