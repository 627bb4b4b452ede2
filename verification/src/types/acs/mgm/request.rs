//! Requests to a magnetometer handler.

use vstd::prelude::*;

use crate::health::HealthState;
use crate::types::{DeviceMode, HkRequestType};

verus! {

#[derive(Debug, Clone, Copy, PartialEq, Eq, Structural)]
pub enum ModeRequest {
    SetMode(DeviceMode),
    ReadMode,
}

#[derive(Debug, Clone, Copy, PartialEq, Eq, Structural)]
pub enum HealthRequest {
    /// Overrides the device's autonomous FDIR health state, for example to clear a `Faulty`
    /// state set by the handler after ground has fixed or worked around the underlying issue.
    SetHealth(HealthState),
}

/// Housekeeping sets of a magnetometer handler.
#[derive(Debug, Clone, Copy, PartialEq, Eq, Structural)]
pub enum HkId {
    Sensor,
}

#[derive(Debug, Clone, Copy, PartialEq, Eq, Structural)]
pub struct HkRequest {
    pub id: HkId,
    pub req_type: HkRequestType,
}

#[derive(Debug, Clone, Copy, PartialEq, Eq, Structural)]
pub enum Request {
    Ping,
    Hk(HkRequest),
    Mode(ModeRequest),
    Health(HealthRequest),
}

} // verus!
