//! Simulation of the physical devices: the messages exchanged with the simulator and the
//! behaviour of the simulated devices.

use vstd::prelude::*;

use crate::minisim::acs::{mgm, mgt};
use crate::minisim::eps::{PcduReply, PcduRequest};

pub mod acs;
pub mod controller;
pub mod eps;
pub mod models;
pub mod udp;

verus! {

/// Used by clients to route replies to the component handling them.
#[derive(Debug, Clone, Copy, PartialEq, Eq, Structural, Hash)]
pub enum ComponentId {
    SimCtrl,
    Mgm0Lis3Mdl,
    Mgm1Lis3Mdl,
    Mgt,
    Pcdu,
}

#[derive(Debug, Clone, PartialEq, Eq)]
pub enum SimRequest {
    SimCtrl(SimCtrlRequest),
    Mgm { id: mgm::Id, request: mgm::Request },
    /// Raw frame of the MGT serial protocol.
    Mgt(Vec<u8>),
    Pcdu(PcduRequest),
}

impl From<SimCtrlRequest> for SimRequest {
    fn from(request: SimCtrlRequest) -> (sim_request: Self) {
        SimRequest::SimCtrl(request)
    }
}

impl vstd::std_specs::convert::FromSpecImpl<SimCtrlRequest> for SimRequest {
    open spec fn obeys_from_spec() -> bool {
        true
    }

    open spec fn from_spec(request: SimCtrlRequest) -> SimRequest {
        SimRequest::SimCtrl(request)
    }
}

impl From<mgt::Request> for SimRequest {
    fn from(request: mgt::Request) -> (sim_request: Self)
        ensures
            sim_request matches SimRequest::Mgt(frame) && frame@ == request.frame(),
    {
        SimRequest::Mgt(request.to_frame())
    }
}

impl vstd::std_specs::convert::FromSpecImpl<mgt::Request> for SimRequest {
    open spec fn obeys_from_spec() -> bool {
        false
    }

    open spec fn from_spec(request: mgt::Request) -> SimRequest {
        arbitrary()
    }
}

impl From<PcduRequest> for SimRequest {
    fn from(request: PcduRequest) -> (sim_request: Self) {
        SimRequest::Pcdu(request)
    }
}

impl vstd::std_specs::convert::FromSpecImpl<PcduRequest> for SimRequest {
    open spec fn obeys_from_spec() -> bool {
        true
    }

    open spec fn from_spec(request: PcduRequest) -> SimRequest {
        SimRequest::Pcdu(request)
    }
}

/// Simulation time: seconds since the epoch and the nanoseconds of the current second.
#[derive(Debug, Clone, Copy, PartialEq, Eq, Structural)]
pub struct MonotonicTime {
    pub secs: i64,
    pub subsec_nanos: u32,
}

impl MonotonicTime {
    /// The epoch.
    pub fn epoch() -> (time: Self)
        ensures
            time == (MonotonicTime { secs: 0, subsec_nanos: 0 }),
    {
        MonotonicTime { secs: 0, subsec_nanos: 0 }
    }
}

#[derive(Debug, Clone, PartialEq, Eq)]
pub struct SimRequestWithTime {
    pub request: SimRequest,
    pub timestamp: MonotonicTime,
}

impl SimRequestWithTime {
    /// Request with the given timestamp.
    pub fn new(request: SimRequest, timestamp: MonotonicTime) -> (sim_request: Self)
        ensures
            sim_request == (SimRequestWithTime { request, timestamp }),
    {
        SimRequestWithTime { request, timestamp }
    }

    /// Request without a meaningful timestamp.
    pub fn new_with_epoch_time(request: SimRequest) -> (sim_request: Self)
        ensures
            sim_request.request == request,
            sim_request.timestamp == (MonotonicTime { secs: 0, subsec_nanos: 0 }),
    {
        Self::new(request, MonotonicTime::epoch())
    }
}

#[derive(Debug, Clone, PartialEq, Eq)]
pub enum SimReply {
    SimCtrl(SimCtrlReply),
    Mgm { id: mgm::Id, reply: mgm::Reply },
    /// Raw frame of the MGT serial protocol.
    Mgt(Vec<u8>),
    Pcdu(PcduReply),
}

impl SimReply {
    /// Component which sent the reply.
    pub open spec fn spec_component(&self) -> ComponentId {
        match self {
            SimReply::SimCtrl(_) => ComponentId::SimCtrl,
            SimReply::Mgm { id: mgm::Id::Mgm0, .. } => ComponentId::Mgm0Lis3Mdl,
            SimReply::Mgm { id: mgm::Id::Mgm1, .. } => ComponentId::Mgm1Lis3Mdl,
            SimReply::Mgt(_) => ComponentId::Mgt,
            SimReply::Pcdu(_) => ComponentId::Pcdu,
        }
    }

    /// Component which sent the reply.
    pub fn component(&self) -> (id: ComponentId)
        ensures
            id == self.spec_component(),
    {
        match self {
            SimReply::SimCtrl(_) => ComponentId::SimCtrl,
            SimReply::Mgm { id, .. } => id.sim_component(),
            SimReply::Mgt(_) => ComponentId::Mgt,
            SimReply::Pcdu(_) => ComponentId::Pcdu,
        }
    }
}

impl From<SimCtrlReply> for SimReply {
    fn from(reply: SimCtrlReply) -> (sim_reply: Self) {
        SimReply::SimCtrl(reply)
    }
}

impl vstd::std_specs::convert::FromSpecImpl<SimCtrlReply> for SimReply {
    open spec fn obeys_from_spec() -> bool {
        true
    }

    open spec fn from_spec(reply: SimCtrlReply) -> SimReply {
        SimReply::SimCtrl(reply)
    }
}

impl From<mgt::Reply> for SimReply {
    fn from(reply: mgt::Reply) -> (sim_reply: Self)
        ensures
            sim_reply matches SimReply::Mgt(frame) && frame@ == reply.frame(),
    {
        SimReply::Mgt(reply.to_frame())
    }
}

impl vstd::std_specs::convert::FromSpecImpl<mgt::Reply> for SimReply {
    open spec fn obeys_from_spec() -> bool {
        false
    }

    open spec fn from_spec(reply: mgt::Reply) -> SimReply {
        arbitrary()
    }
}

impl From<PcduReply> for SimReply {
    fn from(reply: PcduReply) -> (sim_reply: Self) {
        SimReply::Pcdu(reply)
    }
}

impl vstd::std_specs::convert::FromSpecImpl<PcduReply> for SimReply {
    open spec fn obeys_from_spec() -> bool {
        true
    }

    open spec fn from_spec(reply: PcduReply) -> SimReply {
        SimReply::Pcdu(reply)
    }
}

#[derive(Debug, Clone, Copy, PartialEq, Eq, Structural)]
pub enum SimCtrlRequest {
    Ping,
}

#[derive(Debug, Clone, Copy, PartialEq, Eq, Structural)]
pub enum SimCtrlReply {
    Pong,
}

/// A reply belongs to the component which it names.
pub proof fn law_reply_component(reply: SimReply)
    ensures
        reply.spec_component() == (match reply {
            SimReply::SimCtrl(_) => ComponentId::SimCtrl,
            SimReply::Mgm { id, .. } => if id == mgm::Id::Mgm0 {
                ComponentId::Mgm0Lis3Mdl
            } else {
                ComponentId::Mgm1Lis3Mdl
            },
            SimReply::Mgt(_) => ComponentId::Mgt,
            SimReply::Pcdu(_) => ComponentId::Pcdu,
        }),
{
}

} // verus!
