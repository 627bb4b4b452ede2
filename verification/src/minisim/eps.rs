//! Messages of the simulated power control and distribution unit.

use vstd::prelude::*;

use crate::types::pcdu::{SwitchId, SwitchStateBinary};

verus! {

/// Map from switches to their states, which does not have to have an entry for each switch.
#[derive(Debug, Clone, Copy, PartialEq, Eq, Structural)]
pub struct SwitchMapBinary {
    pub mgm0: Option<SwitchStateBinary>,
    pub mgm1: Option<SwitchStateBinary>,
    pub mgt: Option<SwitchStateBinary>,
}

#[derive(Debug, Clone, Copy, PartialEq, Eq, Structural)]
pub enum PcduRequest {
    SwitchDevice { switch: SwitchId, state: SwitchStateBinary },
    RequestSwitchInfo,
}

#[derive(Debug, Clone, Copy, PartialEq, Eq, Structural)]
pub enum PcduReply {
    SwitchInfo(SwitchMapBinary),
}

} // verus!
