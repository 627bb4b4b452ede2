//! Types of the power control and distribution unit (PCDU).

use vstd::prelude::*;

verus! {

/// Power switch of a device.
#[derive(Debug, Clone, Copy, PartialEq, Eq, Structural, Hash)]
pub enum SwitchId {
    Mgm0,
    Mgm1,
    Mgt,
}

impl SwitchId {
    /// Position of the variant.
    pub open spec fn spec_raw(self) -> u32 {
        match self {
            SwitchId::Mgm0 => 0,
            SwitchId::Mgm1 => 1,
            SwitchId::Mgt => 2,
        }
    }

    /// Position of the variant.
    pub fn raw(&self) -> (raw: u32)
        ensures
            raw == self.spec_raw(),
    {
        match self {
            SwitchId::Mgm0 => 0,
            SwitchId::Mgm1 => 1,
            SwitchId::Mgt => 2,
        }
    }
}

/// Last known state of a power switch.
#[derive(Debug, Clone, Copy, PartialEq, Eq, Structural)]
pub enum SwitchState {
    Off,
    On,
    Unknown,
    Faulty,
}

/// Commanded state of a power switch.
#[derive(Debug, Clone, Copy, PartialEq, Eq, Structural)]
pub enum SwitchStateBinary {
    Off,
    On,
}

/// Request to switch a device.
#[derive(Debug, Clone, Copy, PartialEq, Eq, Structural)]
pub struct SwitchRequest {
    pub switch_id: SwitchId,
    pub target_state: SwitchStateBinary,
}

/// The switches are numbered without gaps.
pub proof fn law_switch_numbers()
    ensures
        SwitchId::Mgm0.spec_raw() == 0,
        SwitchId::Mgm1.spec_raw() == 1,
        SwitchId::Mgt.spec_raw() == 2,
{
}

} // verus!
