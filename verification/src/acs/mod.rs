//! Handlers of the attitude control devices.

use vstd::prelude::*;

use crate::types::ccsds::{CcsdsPacketIdAndPsc, SpacePacketHeader};

pub mod mgm;
pub mod mgm_command_laws;
pub mod mgm_laws;
pub mod mgt;
pub mod mgt_command_laws;
pub mod mgt_laws;

verus! {

/// Telecommand for a device handler. The request is missing if the payload could not be decoded.
#[derive(Debug, Clone, Copy)]
pub struct Telecommand<Request> {
    pub sp_header: SpacePacketHeader,
    pub request: Option<Request>,
}

impl<Request> Telecommand<Request> {
    /// Identification of the telecommand.
    pub open spec fn spec_tc_id(self) -> CcsdsPacketIdAndPsc {
        CcsdsPacketIdAndPsc { packet_id: self.sp_header.packet_id, psc: self.sp_header.psc }
    }

    /// Identification of the telecommand.
    pub fn tc_id(&self) -> (id: CcsdsPacketIdAndPsc)
        ensures
            id == self.spec_tc_id(),
    {
        CcsdsPacketIdAndPsc::new_from_ccsds_packet(&self.sp_header)
    }
}

} // verus!
