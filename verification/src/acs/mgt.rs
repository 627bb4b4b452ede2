//! Magnetorquer handler.

use std::collections::VecDeque;
use vstd::prelude::*;

use crate::acs::Telecommand;
use crate::device_fdir::{
    lemma_power_is_lost, power_is_lost, DeviceFdir, FdirEvent, FdirModel, SupervisedModel,
};
use crate::device_mode::{ModeModel, ModeTransitionEvent, SwitchAndModeHelper};
use crate::eps::{PowerModel, PowerSwitchHelper, SwitchSet};
use crate::fdir::{CounterModel, FaultCounterStd, RecoveryEvent};
use crate::health::{HealthState, HealthTableMap, HealthTableProvider};
use crate::hk::{HkHelperSingleSet, HkModel};
use crate::minisim::acs::mgt as sim_mgt;
use crate::minisim::{MonotonicTime, SimReply, SimRequest, SimRequestWithTime};
use crate::time::{Clock, Duration, Instant};
use crate::types::acs::mgt::request::{HealthRequest, ModeRequest, Request};
use crate::types::acs::mgt::response::{ModeResponse, Response};
use crate::types::acs::mgt::{Dipole, Event, HkSet};
use crate::types::ccsds::CcsdsPacketIdAndPsc;
use crate::types::pcdu::{SwitchId, SwitchRequest};
use crate::types::{ComponentId, DeviceMode, HkRequestType};

verus! {

/// FDIR configuration for a stalled communication link. Chosen so a handful of transient
/// timeouts or garbled frames are tolerated but a persistently unresponsive device is caught
/// quickly.
pub const COMM_FAULT_THRESHOLD: u32 = 2;

/// Time after which a communication fault is forgotten, in seconds.
pub const COMM_FAULT_DECREMENT_AFTER: u64 = 30;

/// Contents of a number of frames.
pub open spec fn frame_bytes(frames: Seq<Vec<u8>>) -> Seq<Seq<u8>> {
    frames.map_values(|frame: Vec<u8>| frame@)
}

/// Appending and removing frames does the same to their contents.
proof fn lemma_frame_bytes(frames: Seq<Vec<u8>>, frame: Vec<u8>)
    ensures
        frame_bytes(frames.push(frame)) == frame_bytes(frames).push(frame@),
        frames.len() > 0 ==> frame_bytes(frames.drop_first()) == frame_bytes(frames).drop_first(),
{
    assert(frame_bytes(frames.push(frame)) =~= frame_bytes(frames).push(frame@));
    if frames.len() > 0 {
        assert(frame_bytes(frames.drop_first()) =~= frame_bytes(frames).drop_first());
    }
}

/// Interface for an ideal device which never fails.
#[derive(Debug, Clone)]
pub struct DummyInterface {
    dipole: sim_mgt::Dipole,
    torque: Option<(Instant, Duration)>,
    replies: VecDeque<Vec<u8>>,
}

/// Mathematical model of the [DummyInterface]. Times are clock readings in nanoseconds.
pub struct DummyModel {
    /// Last commanded dipole.
    pub dipole: sim_mgt::Dipole,
    /// Start and length of the last commanded torque.
    pub torque: Option<(nat, nat)>,
    /// Replies which were not received yet.
    pub replies: Seq<Seq<u8>>,
}

impl DummyModel {
    /// The device torques until the commanded duration elapsed.
    pub open spec fn torquing(self, now: nat) -> bool {
        self.torque matches Some((start, duration)) && crate::time::elapsed(start, now) < duration
    }

    /// Housekeeping data of the device.
    pub open spec fn hk(self, now: nat) -> sim_mgt::HkSet {
        sim_mgt::HkSet {
            dipole: if self.torquing(now) {
                self.dipole
            } else {
                sim_mgt::Dipole::none()
            },
            torquing: self.torquing(now),
        }
    }

    /// A frame arrives at the device. Every valid one is replied to, others are dropped.
    pub open spec fn sent(self, frame: Seq<u8>, now: nat) -> DummyModel {
        match sim_mgt::Request::of_frame(frame) {
            Err(_) => self,
            Ok(sim_mgt::Request::ApplyTorque { duration, dipole }) => DummyModel {
                dipole,
                torque: Some((now, duration.nanos as nat)),
                replies: self.replies.push(sim_mgt::Reply::Ack.frame()),
            },
            Ok(sim_mgt::Request::RequestHk) => DummyModel {
                replies: self.replies.push(sim_mgt::Reply::Hk(self.hk(now)).frame()),
                ..self
            },
        }
    }
}

impl View for DummyInterface {
    type V = DummyModel;

    closed spec fn view(&self) -> DummyModel {
        DummyModel {
            dipole: self.dipole,
            torque: match self.torque {
                Some((start, duration)) => Some((start.nanos as nat, duration.nanos as nat)),
                None => None,
            },
            replies: frame_bytes(self.replies@),
        }
    }
}

impl DummyInterface {
    /// Device without a torque.
    pub fn new() -> (interface: Self)
        ensures
            interface@ == (DummyModel {
                dipole: sim_mgt::Dipole::none(),
                torque: None,
                replies: Seq::empty(),
            }),
    {
        let interface = DummyInterface {
            dipole: sim_mgt::Dipole::default(),
            torque: None,
            replies: VecDeque::new(),
        };
        assert(interface@.replies =~= Seq::empty());
        interface
    }

    /// A frame arrives at the device at the time `now`.
    pub fn send_at(&mut self, frame: &[u8], now: Instant)
        ensures
            final(self)@ == old(self)@.sent(frame@, now.nanos as nat),
    {
        let request = match sim_mgt::Request::from_frame(frame) {
            Ok(request) => request,
            Err(_) => {
                return;
            },
        };
        let reply = match request {
            sim_mgt::Request::ApplyTorque { duration, dipole } => {
                self.dipole = dipole;
                self.torque = Some((now, duration));
                sim_mgt::Reply::Ack
            },
            sim_mgt::Request::RequestHk => {
                let torquing = match self.torque {
                    Some((start, duration)) => now.duration_since(start).nanos < duration.nanos,
                    None => false,
                };
                sim_mgt::Reply::Hk(
                    sim_mgt::HkSet {
                        dipole: if torquing {
                            self.dipole
                        } else {
                            sim_mgt::Dipole::default()
                        },
                        torquing,
                    },
                )
            },
        };
        let reply_frame = reply.to_frame();
        proof {
            lemma_frame_bytes(self.replies@, reply_frame);
        }
        self.replies.push_back(reply_frame);
    }

    /// The oldest reply which was not received yet.
    pub fn try_recv(&mut self) -> (frame: Option<Vec<u8>>)
        ensures
            old(self)@.replies.len() == 0 ==> frame is None && final(self)@ == old(self)@,
            old(self)@.replies.len() > 0 ==> {
                &&& frame matches Some(bytes) && bytes@ == old(self)@.replies[0]
                &&& final(self)@ == (DummyModel {
                    replies: old(self)@.replies.drop_first(),
                    ..old(self)@
                })
            },
    {
        let frame = self.replies.pop_front();
        proof {
            if frame is Some {
                assert(self.replies@ =~= old(self).replies@.drop_first());
                lemma_frame_bytes(old(self).replies@, frame->0);
            }
        }
        frame
    }
}

/// Records all sent frames and returns injected reply frames.
#[derive(Debug, Clone)]
pub struct TestInterface {
    pub sent_frames: Vec<Vec<u8>>,
    pub replies: VecDeque<Vec<u8>>,
}

impl TestInterface {
    /// Interface without frames.
    pub fn new() -> (interface: Self)
        ensures
            interface.sent_frames@ == Seq::<Vec<u8>>::empty(),
            interface.replies@ == Seq::<Vec<u8>>::empty(),
    {
        TestInterface { sent_frames: Vec::new(), replies: VecDeque::new() }
    }
}

/// Interface to a simulated device. Requests are queued until they are collected for the
/// simulator, and replies until they are received.
#[derive(Debug, Clone)]
pub struct SimInterface {
    pub requests: Vec<SimRequestWithTime>,
    pub replies: VecDeque<SimReply>,
}

/// Frame in a request to the simulated device.
pub open spec fn request_frame(request: SimRequestWithTime) -> Option<Seq<u8>> {
    match request.request {
        SimRequest::Mgt(frame) => if request.timestamp == (MonotonicTime {
            secs: 0,
            subsec_nanos: 0,
        }) {
            Some(frame@)
        } else {
            None
        },
        _ => None,
    }
}

/// Frames in a number of requests to the simulated device.
pub open spec fn request_frames(requests: Seq<SimRequestWithTime>) -> Seq<Option<Seq<u8>>> {
    requests.map_values(|request: SimRequestWithTime| request_frame(request))
}

impl SimInterface {
    /// Interface without requests and replies.
    pub fn new() -> (interface: Self)
        ensures
            interface.requests@ == Seq::<SimRequestWithTime>::empty(),
            interface.replies@ == Seq::<SimReply>::empty(),
    {
        SimInterface { requests: Vec::new(), replies: VecDeque::new() }
    }

    fn send(&mut self, frame: Vec<u8>)
        ensures
            request_frames(final(self).requests@) == request_frames(old(self).requests@).push(
                Some(frame@),
            ),
            final(self).replies == old(self).replies,
    {
        self.requests.push(SimRequestWithTime::new_with_epoch_time(SimRequest::Mgt(frame)));
        assert(request_frames(self.requests@) =~= request_frames(old(self).requests@).push(
            Some(frame@),
        ));
    }

    /// Replies which do not come from the device are dropped.
    fn try_recv(&mut self) -> (frame: Option<Vec<u8>>)
        ensures
            final(self).requests == old(self).requests,
            old(self).replies@.len() == 0 ==> frame is None && final(self).replies@ == old(
                self,
            ).replies@,
            old(self).replies@.len() > 0 ==> {
                &&& final(self).replies@ == old(self).replies@.drop_first()
                &&& match old(self).replies@[0] {
                    SimReply::Mgt(bytes) => frame == Some(bytes),
                    _ => frame is None,
                }
            },
    {
        match self.replies.pop_front() {
            Some(sim_reply) => {
                assert(self.replies@ =~= old(self).replies@.drop_first());
                match sim_reply {
                    SimReply::Mgt(frame) => Some(frame),
                    _ => None,
                }
            },
            None => None,
        }
    }
}

/// Frame based transport to the device. The handler implements the protocol on top of it.
#[derive(Debug, Clone)]
pub enum MgtCommunication {
    Dummy(DummyInterface),
    Sim(SimInterface),
    Test(TestInterface),
}

/// Mathematical model of the [MgtCommunication].
pub enum LinkModel {
    Dummy(DummyModel),
    Sim { requests: Seq<Option<Seq<u8>>>, replies: Seq<SimReply> },
    Test { sent: Seq<Seq<u8>>, replies: Seq<Seq<u8>> },
}

impl LinkModel {
    /// A frame is sent.
    pub open spec fn sent(self, frame: Seq<u8>, now: nat) -> LinkModel {
        match self {
            LinkModel::Dummy(device) => LinkModel::Dummy(device.sent(frame, now)),
            LinkModel::Sim { requests, replies } => LinkModel::Sim {
                requests: requests.push(Some(frame)),
                replies,
            },
            LinkModel::Test { sent, replies } => LinkModel::Test {
                sent: sent.push(frame),
                replies,
            },
        }
    }

    /// Number of replies which were not received yet.
    pub open spec fn pending(self) -> nat {
        match self {
            LinkModel::Dummy(device) => device.replies.len(),
            LinkModel::Sim { replies, .. } => replies.len(),
            LinkModel::Test { replies, .. } => replies.len(),
        }
    }

    /// The next received frame. There is none if a message of another device is next.
    pub open spec fn next_frame(self) -> Option<Seq<u8>> {
        if self.pending() == 0 {
            None
        } else {
            match self {
                LinkModel::Dummy(device) => Some(device.replies[0]),
                LinkModel::Sim { replies, .. } => match replies[0] {
                    SimReply::Mgt(frame) => Some(frame@),
                    _ => None,
                },
                LinkModel::Test { replies, .. } => Some(replies[0]),
            }
        }
    }

    /// The next reply is taken off the queue.
    pub open spec fn received(self) -> LinkModel {
        if self.pending() == 0 {
            self
        } else {
            match self {
                LinkModel::Dummy(device) => LinkModel::Dummy(
                    DummyModel { replies: device.replies.drop_first(), ..device },
                ),
                LinkModel::Sim { requests, replies } => LinkModel::Sim {
                    requests,
                    replies: replies.drop_first(),
                },
                LinkModel::Test { sent, replies } => LinkModel::Test {
                    sent,
                    replies: replies.drop_first(),
                },
            }
        }
    }
}

impl View for MgtCommunication {
    type V = LinkModel;

    open spec fn view(&self) -> LinkModel {
        match self {
            MgtCommunication::Dummy(dummy) => LinkModel::Dummy(dummy@),
            MgtCommunication::Sim(sim) => LinkModel::Sim {
                requests: request_frames(sim.requests@),
                replies: sim.replies@,
            },
            MgtCommunication::Test(test) => LinkModel::Test {
                sent: frame_bytes(test.sent_frames@),
                replies: frame_bytes(test.replies@),
            },
        }
    }
}

impl MgtCommunication {
    fn send(&mut self, frame: Vec<u8>, now: Instant)
        ensures
            final(self)@ == old(self)@.sent(frame@, now.nanos as nat),
    {
        match self {
            MgtCommunication::Dummy(dummy) => dummy.send_at(frame.as_slice(), now),
            MgtCommunication::Sim(sim) => sim.send(frame),
            MgtCommunication::Test(test) => {
                proof {
                    lemma_frame_bytes(test.sent_frames@, frame);
                }
                test.sent_frames.push(frame);
            },
        }
    }

    fn try_recv(&mut self) -> (frame: Option<Vec<u8>>)
        ensures
            final(self)@ == old(self)@.received(),
            match old(self)@.next_frame() {
                Some(bytes) => frame matches Some(received) && received@ == bytes,
                None => frame is None,
            },
    {
        match self {
            MgtCommunication::Dummy(dummy) => dummy.try_recv(),
            MgtCommunication::Sim(sim) => sim.try_recv(),
            MgtCommunication::Test(test) => {
                let ghost waiting = test.replies@;
                let frame = test.replies.pop_front();
                proof {
                    if frame is Some {
                        assert(test.replies@ =~= waiting.drop_first());
                        lemma_frame_bytes(waiting, frame->0);
                    }
                }
                frame
            },
        }
    }
}

/// Mathematical model of the [MgtHandler].
pub struct MgtHandlerModel {
    /// Telecommands which were not handled yet.
    pub tcs: Seq<Telecommand<Request>>,
    /// Telemetry which was not collected yet, with the telecommand it responds to.
    pub tms: Seq<(Option<CcsdsPacketIdAndPsc>, Response)>,
    /// Communication with the device.
    pub link: LinkModel,
    /// Housekeeping data of the device.
    pub set: HkSet,
    /// Housekeeping settings.
    pub hk: HkModel,
    /// Mode, power switch and FDIR of the device.
    pub device: SupervisedModel,
    /// Mode requests of the parent which were not handled yet.
    pub mode_requests: Seq<ModeRequest>,
    /// Mode reports to the parent which were not collected yet.
    pub mode_reports: Seq<ModeResponse>,
    /// The last poll was not answered yet.
    pub awaiting_reply: bool,
    /// Events which were not collected yet.
    pub events: Seq<Event>,
    /// Clock which tells the time.
    pub clock: Clock,
}

/// Event of the handler for an FDIR event.
pub open spec fn mgt_event(event: FdirEvent) -> Event {
    match event {
        FdirEvent::FaultThresholdExceeded => Event::CommFaultThresholdExceeded,
        FdirEvent::Recovery(recovery_event) => Event::Recovery(recovery_event),
    }
}

/// Torque command as it is sent to the device.
pub open spec fn torque_frame(dipole: Dipole, duration: Duration) -> Seq<u8> {
    sim_mgt::Request::ApplyTorque {
        duration,
        dipole: sim_mgt::Dipole { x: dipole.x, y: dipole.y, z: dipole.z },
    }.frame()
}

/// Housekeeping data which the device sent.
pub open spec fn received_hk(hk: sim_mgt::HkSet) -> HkSet {
    HkSet {
        valid: true,
        dipole: Dipole { x: hk.dipole.x, y: hk.dipole.y, z: hk.dipole.z },
        torquing: hk.torquing,
    }
}

impl MgtHandlerModel {
    /// Handler of a switched off device.
    pub open spec fn fresh(
        power: PowerModel,
        link: LinkModel,
        mode_timeout: nat,
        entries: Map<u32, HealthState>,
        clock: Clock,
    ) -> MgtHandlerModel {
        MgtHandlerModel {
            tcs: Seq::empty(),
            tms: Seq::empty(),
            link,
            set: HkSet::spec_default(),
            hk: HkModel { enabled: false, frequency: 200_000_000, last: None },
            device: SupervisedModel {
                fdir: FdirModel::fresh(
                    "MGT"@,
                    ComponentId::AcsMgt.spec_raw(),
                    entries,
                    CounterModel::fresh(2, 30_000_000_000),
                    clock,
                ),
                modes: ModeModel::fresh(
                    DeviceMode::Off,
                    mode_timeout,
                    power,
                    SwitchId::Mgt,
                    clock,
                ),
            },
            mode_requests: Seq::empty(),
            mode_reports: Seq::empty(),
            awaiting_reply: false,
            events: Seq::empty(),
            clock,
        }
    }

    /// The fault counters stay within their thresholds.
    pub open spec fn inv(self) -> bool {
        &&& self.device.fdir.inv()
        &&& self.device.fdir.counter.failure_threshold == COMM_FAULT_THRESHOLD
        &&& self.device.fdir.counter.fault_count <= self.device.fdir.counter.failure_threshold
    }

    /// Telemetry is sent.
    pub open spec fn with_tm(
        self,
        tc_id: Option<CcsdsPacketIdAndPsc>,
        response: Response,
    ) -> MgtHandlerModel {
        MgtHandlerModel { tms: self.tms.push((tc_id, response)), ..self }
    }

    /// An event is sent.
    pub open spec fn with_event(self, event: Event) -> MgtHandlerModel {
        MgtHandlerModel { events: self.events.push(event), ..self }
    }

    /// The parent gets a mode report.
    pub open spec fn with_report(self, report: ModeResponse) -> MgtHandlerModel {
        MgtHandlerModel { mode_reports: self.mode_reports.push(report), ..self }
    }

    /// The parent is told the mode.
    pub open spec fn mode_reported(self) -> MgtHandlerModel {
        self.with_report(ModeResponse::Mode(self.device.modes.reported_mode()))
    }

    /// A request is sent to the device.
    pub open spec fn frame_sent(self, frame: Seq<u8>, now: nat) -> MgtHandlerModel {
        MgtHandlerModel { link: self.link.sent(frame, now), ..self }
    }

    /// The device accepts commands: it is in normal mode and not in a transition.
    pub open spec fn ready_for_commanding(self) -> bool {
        self.device.modes.current == DeviceMode::Normal && self.device.modes.target is None
    }

    /// A housekeeping request is executed.
    pub open spec fn hk_requested(
        self,
        tc_id: CcsdsPacketIdAndPsc,
        request: HkRequestType,
    ) -> MgtHandlerModel {
        if request is OneShot {
            self.with_tm(Some(tc_id), Response::Hk(self.set))
        } else {
            MgtHandlerModel { hk: self.hk.configured(request), ..self }
        }
    }

    /// A torque command is passed on to the device, or rejected if the device does not accept
    /// commands.
    pub open spec fn torque_commanded(
        self,
        tc_id: CcsdsPacketIdAndPsc,
        dipole: Dipole,
        duration: Duration,
        now: nat,
    ) -> MgtHandlerModel {
        if self.ready_for_commanding() {
            self.frame_sent(torque_frame(dipole, duration), now).with_tm(
                Some(tc_id),
                Response::Success,
            )
        } else {
            self.with_tm(Some(tc_id), Response::NotInNormalMode)
        }
    }

    /// A mode is commanded. The housekeeping data is reset if the device is switched off.
    pub open spec fn mode_commanded(
        self,
        target: DeviceMode,
        commander: Option<CcsdsPacketIdAndPsc>,
        now: nat,
    ) -> MgtHandlerModel {
        MgtHandlerModel {
            device: SupervisedModel {
                fdir: self.device.fdir.after_mode_command(self.device.modes),
                modes: self.device.modes.transition_started(target, commander, now),
            },
            set: if target == DeviceMode::Off {
                HkSet::spec_default()
            } else {
                self.set
            },
            ..self
        }
    }

    /// A health is commanded.
    pub open spec fn health_set(self, health: HealthState) -> MgtHandlerModel {
        MgtHandlerModel {
            device: SupervisedModel {
                fdir: FdirModel {
                    recovery: self.device.fdir.recovery.with_health(health),
                    ..self.device.fdir
                },
                ..self.device
            },
            ..self
        }
    }

    /// A telecommand is executed. One which could not be decoded is ignored.
    pub open spec fn tc_handled(self, tc: Telecommand<Request>, now: nat) -> MgtHandlerModel {
        let tc_id = tc.spec_tc_id();
        match tc.request {
            None => self,
            Some(Request::Ping) => self.with_tm(Some(tc_id), Response::Success),
            Some(Request::Hk(request)) => self.hk_requested(tc_id, request),
            Some(Request::Mode(ModeRequest::SetMode(mode))) => self.mode_commanded(
                mode,
                Some(tc_id),
                now,
            ),
            Some(Request::Mode(ModeRequest::ReadMode)) => self.with_tm(
                Some(tc_id),
                Response::Mode(ModeResponse::Mode(self.device.modes.reported_mode())),
            ),
            Some(Request::Health(HealthRequest::SetHealth(health))) => self.health_set(
                health,
            ).with_tm(Some(tc_id), Response::Success),
            Some(Request::ApplyTorque { dipole, duration }) => self.torque_commanded(
                tc_id,
                dipole,
                duration,
                now,
            ),
        }
    }

    /// Telecommands are executed one after the other.
    pub open spec fn after_tcs(self, tcs: Seq<Telecommand<Request>>, now: nat) -> MgtHandlerModel
        decreases tcs.len(),
    {
        if tcs.len() == 0 {
            self
        } else {
            self.tc_handled(tcs[0], now).after_tcs(tcs.drop_first(), now)
        }
    }

    /// All queued telecommands are executed.
    pub open spec fn tcs_handled(self, now: nat) -> MgtHandlerModel {
        MgtHandlerModel { tcs: Seq::empty(), ..self }.after_tcs(self.tcs, now)
    }

    /// A mode request of the parent is executed.
    pub open spec fn mode_request_handled(self, request: ModeRequest, now: nat) -> MgtHandlerModel {
        match request {
            ModeRequest::SetMode(mode) => self.mode_commanded(mode, None, now),
            ModeRequest::ReadMode => self.mode_reported(),
        }
    }

    /// Mode requests of the parent are executed one after the other.
    pub open spec fn after_mode_requests(
        self,
        requests: Seq<ModeRequest>,
        now: nat,
    ) -> MgtHandlerModel
        decreases requests.len(),
    {
        if requests.len() == 0 {
            self
        } else {
            self.mode_request_handled(requests[0], now).after_mode_requests(
                requests.drop_first(),
                now,
            )
        }
    }

    /// All queued mode requests of the parent are executed.
    pub open spec fn mode_requests_handled(self, now: nat) -> MgtHandlerModel {
        MgtHandlerModel { mode_requests: Seq::empty(), ..self }.after_mode_requests(
            self.mode_requests,
            now,
        )
    }

    /// The given FDIR events are sent in their order. The housekeeping data is not valid anymore
    /// if one of them means that the device loses its power.
    pub open spec fn events_sent(self, queued: Seq<FdirEvent>) -> MgtHandlerModel {
        MgtHandlerModel {
            set: HkSet { valid: self.set.valid && !power_is_lost(queued), ..self.set },
            events: self.events + queued.map_values(|event: FdirEvent| mgt_event(event)),
            ..self
        }
    }

    /// Sending events one after the other is the same as sending all of them.
    proof fn lemma_first_event_sent(self, queued: Seq<FdirEvent>)
        requires
            queued.len() > 0,
        ensures
            self.events_sent(queued) == self.events_sent(seq![queued[0]]).events_sent(
                queued.drop_first(),
            ),
            self.events_sent(seq![queued[0]]) == (MgtHandlerModel {
                set: HkSet {
                    valid: self.set.valid && queued[0] != FdirEvent::Recovery(
                        RecoveryEvent::Started,
                    ) && queued[0] != FdirEvent::Recovery(RecoveryEvent::ThresholdExceeded),
                    ..self.set
                },
                ..self.with_event(mgt_event(queued[0]))
            }),
    {
        let rest = queued.drop_first();
        let first = seq![queued[0]];
        lemma_power_is_lost(queued);
        let sent = self.events_sent(first);
        assert(sent.events =~= self.with_event(mgt_event(queued[0])).events);
        assert(self.events_sent(queued).events =~= sent.events_sent(rest).events);
    }

    /// The queued FDIR events are sent.
    pub open spec fn fdir_events_sent(self) -> MgtHandlerModel {
        MgtHandlerModel {
            device: SupervisedModel {
                fdir: FdirModel { events: Seq::empty(), ..self.device.fdir },
                ..self.device
            },
            ..self
        }.events_sent(self.device.fdir.events)
    }

    /// A mode transition completed: it is announced, confirmed to the commander and reported to
    /// the parent.
    pub open spec fn mode_reached(self, commander: Option<CcsdsPacketIdAndPsc>) -> MgtHandlerModel {
        let announced = self.with_event(Event::ModeChanged(self.device.modes.current));
        let confirmed = match commander {
            Some(_) => announced.with_tm(commander, Response::Success),
            None => announced,
        };
        confirmed.mode_reported()
    }

    /// A mode transition failed, which the commander and the parent are told.
    pub open spec fn mode_failed(self, commander: Option<CcsdsPacketIdAndPsc>) -> MgtHandlerModel {
        let answered = match commander {
            Some(_) => self.with_tm(commander, Response::Mode(ModeResponse::SetModeTimeout)),
            None => self,
        };
        answered.with_report(ModeResponse::SetModeTimeout)
    }

    /// The FDIR has its turn.
    pub open spec fn fdir_cycled(self, now: nat) -> MgtHandlerModel {
        MgtHandlerModel { device: self.device.cycled(now), ..self }.fdir_events_sent()
    }

    /// The mode transition is driven.
    pub open spec fn mode_handled(self, now: nat) -> MgtHandlerModel {
        let driven = MgtHandlerModel {
            device: SupervisedModel { modes: self.device.modes.handled(now), ..self.device },
            ..self
        };
        match self.device.modes.handled_event(now) {
            None => driven,
            Some(ModeTransitionEvent::Reached(commander)) => driven.mode_reached(commander),
            Some(ModeTransitionEvent::Failed(commander)) => driven.mode_failed(commander),
            Some(ModeTransitionEvent::PowerCycleDone) => MgtHandlerModel {
                device: SupervisedModel {
                    fdir: driven.device.fdir.after_power_cycle_done(),
                    ..driven.device
                },
                ..driven
            }.fdir_events_sent(),
            Some(ModeTransitionEvent::PowerCycleFailed { restore_mode }) => MgtHandlerModel {
                device: driven.device.after_power_cycle_failed(restore_mode, now),
                ..driven
            }.fdir_events_sent(),
        }
    }

    /// The device replied as expected.
    pub open spec fn comm_succeeded(self, now: nat) -> MgtHandlerModel {
        MgtHandlerModel {
            awaiting_reply: false,
            device: SupervisedModel {
                fdir: self.device.fdir.after_success(now),
                ..self.device
            },
            ..self
        }
    }

    /// The communication with the device failed.
    pub open spec fn comm_failed(self, now: nat) -> MgtHandlerModel {
        MgtHandlerModel {
            set: HkSet { valid: false, ..self.set },
            device: self.device.after_fault(now),
            ..self
        }.fdir_events_sent()
    }

    /// A frame was received. An invalid one is a fault.
    pub open spec fn reply_handled(self, frame: Seq<u8>, now: nat) -> MgtHandlerModel {
        match sim_mgt::Reply::of_frame(frame) {
            Ok(sim_mgt::Reply::Hk(hk)) => MgtHandlerModel {
                set: received_hk(hk),
                ..self
            }.comm_succeeded(now),
            Ok(sim_mgt::Reply::Ack) => self.comm_succeeded(now),
            Err(_) => MgtHandlerModel { awaiting_reply: false, ..self }.comm_failed(now),
        }
    }

    /// Frames are received until there is none left.
    pub open spec fn replies_handled(self, now: nat) -> MgtHandlerModel
        decreases self.link.pending(),
    {
        let received = MgtHandlerModel { link: self.link.received(), ..self };
        match self.link.next_frame() {
            None => received,
            Some(frame) => received.reply_handled(frame, now).replies_handled(now),
        }
    }

    /// The device is polled. It is a fault if the last poll was not answered.
    pub open spec fn polled(self, now: nat) -> MgtHandlerModel {
        let checked = if self.awaiting_reply {
            self.comm_failed(now)
        } else {
            self
        };
        MgtHandlerModel { awaiting_reply: true, ..checked }.frame_sent(
            sim_mgt::Request::RequestHk.frame(),
            now,
        )
    }

    /// The device is polled if it accepts commands. Otherwise, no reply is expected.
    pub open spec fn poll_checked(self, now: nat) -> MgtHandlerModel {
        if self.ready_for_commanding() {
            self.polled(now)
        } else {
            MgtHandlerModel { awaiting_reply: false, ..self }
        }
    }

    /// Periodic housekeeping data is sent if it is due.
    pub open spec fn hk_checked(self, now: nat) -> MgtHandlerModel {
        let checked = MgtHandlerModel { hk: self.hk.checked(now), ..self };
        if self.hk.due(now) {
            checked.with_tm(None, Response::Hk(self.set))
        } else {
            checked
        }
    }

    /// One cycle.
    pub open spec fn cycled(self, now: nat) -> MgtHandlerModel {
        self.tcs_handled(now).mode_requests_handled(now).fdir_cycled(now).mode_handled(
            now,
        ).replies_handled(now).poll_checked(now).hk_checked(now)
    }
}

/// Helper component for communication with a parent component, which is usually an assembly
/// or a subsystem.
#[derive(Debug, Clone)]
pub struct ModeLeafHelper {
    pub requests: VecDeque<ModeRequest>,
    pub reports: Vec<ModeResponse>,
}

impl ModeLeafHelper {
    /// Helper with empty queues.
    pub fn new() -> (helper: Self)
        ensures
            helper.requests@ == Seq::<ModeRequest>::empty(),
            helper.reports@ == Seq::<ModeResponse>::empty(),
    {
        ModeLeafHelper { requests: VecDeque::new(), reports: Vec::new() }
    }
}

/// Magnetorquer (MGT) device handler.
///
/// The device is powered through the PCDU and only accepts torque commands in normal mode.
/// In normal mode, the device HK is polled every cycle. The replies arrive asynchronously and
/// are cached as the HK set of the handler.
///
/// Communication is monitored for FDIR: a reply timeout or an undecodable frame counts as a
/// fault, which can trigger a power cycle recovery or mark the device faulty, same as the MGM
/// SPI fault handling.
#[derive(Debug, Clone)]
pub struct MgtHandler {
    tc_queue: VecDeque<Telecommand<Request>>,
    tm_queue: Vec<(Option<CcsdsPacketIdAndPsc>, Response)>,
    com: MgtCommunication,
    hk_set: HkSet,
    hk_helper: HkHelperSingleSet,
    switch_and_mode_helper: SwitchAndModeHelper<DeviceMode>,
    mode_leaf_helper: ModeLeafHelper,
    fdir: DeviceFdir,
    /// Set once HK is polled and cleared once a reply arrives. Still set by the time the next
    /// poll is due means the previous reply never arrived, which counts as a comm fault.
    awaiting_reply: bool,
    event_queue: Vec<Event>,
    clock: Clock,
}

impl View for MgtHandler {
    type V = MgtHandlerModel;

    closed spec fn view(&self) -> MgtHandlerModel {
        MgtHandlerModel {
            tcs: self.tc_queue@,
            tms: self.tm_queue@,
            link: self.com@,
            set: self.hk_set,
            hk: self.hk_helper@,
            device: SupervisedModel { fdir: self.fdir@, modes: self.switch_and_mode_helper@ },
            mode_requests: self.mode_leaf_helper.requests@,
            mode_reports: self.mode_leaf_helper.reports@,
            awaiting_reply: self.awaiting_reply,
            events: self.event_queue@,
            clock: self.clock,
        }
    }
}

impl MgtHandler {
    /// Handler of a switched off device.
    pub fn new(
        switch_helper: PowerSwitchHelper,
        com: MgtCommunication,
        mode_timeout: Duration,
        health_table: HealthTableMap,
    ) -> (handler: Self)
        ensures
            handler@ == MgtHandlerModel::fresh(
                switch_helper@,
                com@,
                mode_timeout.nanos as nat,
                health_table.entries(),
                handler@.clock,
            ),
            handler@.inv(),
    {
        let clock = Clock::new();
        MgtHandler {
            tc_queue: VecDeque::new(),
            tm_queue: Vec::new(),
            com,
            hk_set: HkSet::default(),
            hk_helper: HkHelperSingleSet::new(false, Duration::from_millis(200)),
            switch_and_mode_helper: SwitchAndModeHelper::with_clock(
                DeviceMode::Off,
                mode_timeout,
                switch_helper,
                SwitchId::Mgt,
                clock,
            ),
            mode_leaf_helper: ModeLeafHelper::new(),
            fdir: DeviceFdir::new(
                "MGT",
                ComponentId::AcsMgt,
                health_table,
                FaultCounterStd::with_clock(
                    COMM_FAULT_THRESHOLD,
                    Duration::from_secs(COMM_FAULT_DECREMENT_AFTER),
                    clock,
                ),
            ),
            awaiting_reply: false,
            event_queue: Vec::new(),
            clock,
        }
    }

    /// Component of the handler, which is the sender of all its telemetry.
    pub fn component_id(&self) -> (id: ComponentId)
        ensures
            id == ComponentId::AcsMgt,
    {
        ComponentId::AcsMgt
    }

    /// Mode of the device.
    pub fn mode(&self) -> (mode: DeviceMode)
        ensures
            mode == self@.device.modes.current,
    {
        self.switch_and_mode_helper.mode()
    }

    /// Housekeeping data of the device.
    pub fn hk_set(&self) -> (hk_set: HkSet)
        ensures
            hk_set == self@.set,
    {
        self.hk_set
    }

    /// Health of the component.
    pub fn health(&self) -> (health: Option<HealthState>)
        ensures
            health == self@.device.fdir.recovery.health(),
    {
        self.fdir.health()
    }

    /// Current count of communication faults.
    pub fn fault_count(&self) -> (count: u32)
        ensures
            count == self@.device.fdir.counter.fault_count,
    {
        self.fdir.fault_count()
    }

    /// Target of the mode transition, if there is one.
    pub fn target_mode(&self) -> (target: Option<DeviceMode>)
        ensures
            target == self@.device.modes.target,
    {
        self.switch_and_mode_helper.target()
    }

    /// Communication with the device.
    pub fn com(&self) -> (com: &MgtCommunication)
        ensures
            com@ == self@.link,
    {
        &self.com
    }

    /// Communication with the device.
    pub fn com_mut(&mut self) -> (com: &mut MgtCommunication)
        ensures
            com@ == old(self)@.link,
            final(self)@ == (MgtHandlerModel { link: final(com)@, ..old(self)@ }),
    {
        &mut self.com
    }

    /// Sets the health of the component.
    pub fn set_health(&mut self, health: HealthState)
        ensures
            final(self)@ == old(self)@.health_set(health),
            old(self)@.inv() ==> final(self)@.inv(),
    {
        self.fdir.set_health(health);
    }

    /// Sets the time the device stays unpowered during a power cycle.
    pub fn set_recovery_off_duration(&mut self, duration: Duration)
        ensures
            final(self)@ == (MgtHandlerModel {
                device: SupervisedModel {
                    fdir: FdirModel {
                        off_duration: duration.nanos as nat,
                        ..old(self)@.device.fdir
                    },
                    ..old(self)@.device
                },
                ..old(self)@
            }),
            old(self)@.inv() ==> final(self)@.inv(),
    {
        self.fdir.set_recovery_off_duration(duration);
    }

    /// Updates the switch states.
    pub fn set_switch_set(&mut self, switch_set: SwitchSet)
        ensures
            final(self)@ == (MgtHandlerModel {
                device: SupervisedModel {
                    modes: ModeModel {
                        power: PowerModel { switch_set, ..old(self)@.device.modes.power },
                        ..old(self)@.device.modes
                    },
                    ..old(self)@.device
                },
                ..old(self)@
            }),
            old(self)@.inv() ==> final(self)@.inv(),
    {
        self.switch_and_mode_helper.set_switch_set(switch_set);
    }

    /// Collects all switch requests.
    pub fn take_switch_requests(&mut self) -> (requests: Vec<SwitchRequest>)
        ensures
            requests@ == old(self)@.device.modes.power.requests,
            final(self)@ == (MgtHandlerModel {
                device: SupervisedModel {
                    modes: ModeModel {
                        power: PowerModel {
                            requests: Seq::empty(),
                            ..old(self)@.device.modes.power
                        },
                        ..old(self)@.device.modes
                    },
                    ..old(self)@.device
                },
                ..old(self)@
            }),
            old(self)@.inv() ==> final(self)@.inv(),
    {
        self.switch_and_mode_helper.take_switch_requests()
    }

    /// Collects all telemetry, with the telecommands it responds to.
    pub fn take_telemetry(&mut self) -> (tms: Vec<(Option<CcsdsPacketIdAndPsc>, Response)>)
        ensures
            tms@ == old(self)@.tms,
            final(self)@ == (MgtHandlerModel { tms: Seq::empty(), ..old(self)@ }),
    {
        let mut tms: Vec<(Option<CcsdsPacketIdAndPsc>, Response)> = Vec::new();
        std::mem::swap(&mut tms, &mut self.tm_queue);
        tms
    }

    /// Collects all mode reports to the parent.
    pub fn take_mode_reports(&mut self) -> (reports: Vec<ModeResponse>)
        ensures
            reports@ == old(self)@.mode_reports,
            final(self)@ == (MgtHandlerModel { mode_reports: Seq::empty(), ..old(self)@ }),
    {
        let mut reports: Vec<ModeResponse> = Vec::new();
        std::mem::swap(&mut reports, &mut self.mode_leaf_helper.reports);
        reports
    }

    /// Collects all events.
    pub fn take_events(&mut self) -> (events: Vec<Event>)
        ensures
            events@ == old(self)@.events,
            final(self)@ == (MgtHandlerModel { events: Seq::empty(), ..old(self)@ }),
    {
        let mut events: Vec<Event> = Vec::new();
        std::mem::swap(&mut events, &mut self.event_queue);
        events
    }

    /// Queues a telecommand for the next cycle.
    pub fn queue_telecommand(&mut self, tc: Telecommand<Request>)
        ensures
            final(self)@ == (MgtHandlerModel { tcs: old(self)@.tcs.push(tc), ..old(self)@ }),
    {
        self.tc_queue.push_back(tc);
    }

    /// Queues a mode request of the parent for the next cycle.
    pub fn queue_mode_request(&mut self, request: ModeRequest)
        ensures
            final(self)@ == (MgtHandlerModel {
                mode_requests: old(self)@.mode_requests.push(request),
                ..old(self)@
            }),
    {
        self.mode_leaf_helper.requests.push_back(request);
    }

    /// Core function called periodically to drive the handler.
    pub fn periodic_operation(&mut self)
        requires
            old(self)@.inv(),
        ensures
            exists|now: nat| final(self)@ == #[trigger] old(self)@.cycled(now),
            final(self)@.inv(),
    {
        let now = self.clock.now();
        self.periodic_operation_at(now);
        assert(self@ == old(self)@.cycled(now.nanos as nat));
    }

    /// [Self::periodic_operation] at the time `now`.
    pub fn periodic_operation_at(&mut self, now: Instant)
        requires
            old(self)@.inv(),
        ensures
            final(self)@ == old(self)@.cycled(now.nanos as nat),
            final(self)@.inv(),
    {
        self.handle_telecommands(now);
        self.handle_mode_leaf_handling(now);

        self.fdir.periodic_operation_at(&mut self.switch_and_mode_helper, now);
        self.handle_fdir_events();

        self.handle_mode_transition(now);

        // Process replies received since the last call before deciding whether the previous
        // poll was answered in time.
        self.handle_replies(now);

        if self.ready_for_commanding() {
            self.poll_hk(now);
        } else {
            // Not polling, so a reply missed while off must not be flagged as a fault later.
            self.awaiting_reply = false;
        }

        if self.hk_helper.needs_generation_at(now) {
            let hk_set = self.hk_set;
            self.send_telemetry(None, Response::Hk(hk_set));
        }
    }

    fn handle_mode_transition(&mut self, now: Instant)
        requires
            old(self)@.inv(),
        ensures
            final(self)@ == old(self)@.mode_handled(now.nanos as nat),
            final(self)@.inv(),
    {
        if let Some(event) = self.switch_and_mode_helper.handle_mode_transition_at(now) {
            match event {
                ModeTransitionEvent::Reached(tc_commander) => {
                    self.handle_mode_reached(tc_commander);
                },
                ModeTransitionEvent::Failed(tc_commander) => {
                    self.handle_mode_transition_failure(tc_commander);
                },
                // The mode did not change for other components, so there is nothing to report.
                ModeTransitionEvent::PowerCycleDone => {
                    self.fdir.handle_power_cycle_done();
                    self.handle_fdir_events();
                },
                ModeTransitionEvent::PowerCycleFailed { restore_mode } => {
                    self.fdir.handle_power_cycle_failed_at(
                        &mut self.switch_and_mode_helper,
                        restore_mode,
                        now,
                    );
                    self.handle_fdir_events();
                },
            }
        }
    }

    fn send_request(&mut self, request: sim_mgt::Request, now: Instant)
        ensures
            final(self)@ == old(self)@.frame_sent(request.frame(), now.nanos as nat),
    {
        self.com.send(request.to_frame(), now);
    }

    /// Polls HK. If the reply to the previous poll never arrived, that is a comm fault.
    fn poll_hk(&mut self, now: Instant)
        requires
            old(self)@.inv(),
        ensures
            final(self)@ == old(self)@.polled(now.nanos as nat),
            final(self)@.inv(),
    {
        if self.awaiting_reply {
            self.register_comm_fault(now);
        }
        self.awaiting_reply = true;
        self.send_request(sim_mgt::Request::RequestHk, now);
    }

    fn handle_replies(&mut self, now: Instant)
        requires
            old(self)@.inv(),
        ensures
            final(self)@ == old(self)@.replies_handled(now.nanos as nat),
            final(self)@.inv(),
    {
        let mut next = self.com.try_recv();
        while next.is_some()
            invariant
                self@.inv(),
                old(self)@.replies_handled(now.nanos as nat) == (match next {
                    Some(frame) => self@.reply_handled(frame@, now.nanos as nat).replies_handled(
                        now.nanos as nat,
                    ),
                    None => self@,
                }),
            decreases
                    self@.link.pending() + (if next is Some {
                        1int
                    } else {
                        0
                    }),
        {
            if let Some(frame) = next {
                self.handle_reply(frame, now);
            }
            next = self.com.try_recv();
        }
    }

    fn handle_reply(&mut self, frame: Vec<u8>, now: Instant)
        requires
            old(self)@.inv(),
        ensures
            final(self)@ == old(self)@.reply_handled(frame@, now.nanos as nat),
            final(self)@.inv(),
    {
        match sim_mgt::Reply::from_frame(frame.as_slice()) {
            Ok(sim_mgt::Reply::Hk(hk)) => {
                self.hk_set =
                HkSet {
                    valid: true,
                    dipole: Dipole { x: hk.dipole.x, y: hk.dipole.y, z: hk.dipole.z },
                    torquing: hk.torquing,
                };
                self.register_comm_success(now);
            },
            Ok(sim_mgt::Reply::Ack) => self.register_comm_success(now),
            Err(_) => {
                self.awaiting_reply = false;
                self.register_comm_fault(now);
            },
        }
    }

    fn register_comm_success(&mut self, now: Instant)
        requires
            old(self)@.inv(),
        ensures
            final(self)@ == old(self)@.comm_succeeded(now.nanos as nat),
            final(self)@.inv(),
    {
        self.awaiting_reply = false;
        self.fdir.register_success_at(now);
    }

    fn register_comm_fault(&mut self, now: Instant)
        requires
            old(self)@.inv(),
        ensures
            final(self)@ == old(self)@.comm_failed(now.nanos as nat),
            final(self)@.inv(),
    {
        self.hk_set.valid = false;
        self.fdir.register_fault_at(&mut self.switch_and_mode_helper, now);
        self.handle_fdir_events();
    }

    fn handle_fdir_events(&mut self)
        ensures
            final(self)@ == old(self)@.fdir_events_sent(),
            old(self)@.inv() ==> final(self)@.inv(),
    {
        let mut queue = self.fdir.take_events();
        while queue.len() > 0
            invariant
                self@.events_sent(queue@) == old(self)@.fdir_events_sent(),
                old(self)@.inv() ==> self@.inv(),
            decreases queue@.len(),
        {
            let ghost before = self@;
            let ghost waiting = queue@;
            if let Some(event) = queue.pop_front() {
                let event = match event {
                    FdirEvent::FaultThresholdExceeded => Event::CommFaultThresholdExceeded,
                    FdirEvent::Recovery(recovery_event) => {
                        // The device is power cycled or switched off.
                        if recovery_event == RecoveryEvent::Started || recovery_event
                            == RecoveryEvent::ThresholdExceeded {
                            self.hk_set.valid = false;
                        }
                        Event::Recovery(recovery_event)
                    },
                };
                self.send_event(event);
                proof {
                    assert(queue@ =~= waiting.drop_first());
                    before.lemma_first_event_sent(waiting);
                }
            }
        }
        proof {
            assert(self@.events_sent(queue@) =~= self@);
        }
    }

    fn ready_for_commanding(&self) -> (ready: bool)
        ensures
            ready == self@.ready_for_commanding(),
    {
        self.mode() == DeviceMode::Normal && self.switch_and_mode_helper.target().is_none()
    }

    fn handle_telecommands(&mut self, now: Instant)
        requires
            old(self)@.inv(),
        ensures
            final(self)@ == old(self)@.tcs_handled(now.nanos as nat),
            final(self)@.inv(),
    {
        let mut queue: VecDeque<Telecommand<Request>> = VecDeque::new();
        std::mem::swap(&mut queue, &mut self.tc_queue);
        while queue.len() > 0
            invariant
                self@.inv(),
                self@.after_tcs(queue@, now.nanos as nat) == old(self)@.tcs_handled(
                    now.nanos as nat,
                ),
            decreases queue@.len(),
        {
            let ghost waiting = queue@;
            if let Some(tc) = queue.pop_front() {
                self.handle_telecommand(tc, now);
                assert(queue@ =~= waiting.drop_first());
            }
        }
    }

    fn handle_telecommand(&mut self, tc: Telecommand<Request>, now: Instant)
        requires
            old(self)@.inv(),
        ensures
            final(self)@ == old(self)@.tc_handled(tc, now.nanos as nat),
            final(self)@.inv(),
    {
        let tc_id = tc.tc_id();
        match tc.request {
            Some(Request::Ping) => self.send_telemetry(Some(tc_id), Response::Success),
            Some(Request::Hk(hk_request)) => self.handle_hk_request(tc_id, hk_request),
            Some(Request::Mode(ModeRequest::SetMode(mode))) => {
                self.handle_mode_command(mode, Some(tc_id), now);
            },
            Some(Request::Mode(ModeRequest::ReadMode)) => self.send_telemetry(
                Some(tc_id),
                Response::Mode(ModeResponse::Mode(self.switch_and_mode_helper.reported_mode())),
            ),
            Some(Request::Health(HealthRequest::SetHealth(health_state))) => {
                self.fdir.set_health(health_state);
                self.send_telemetry(Some(tc_id), Response::Success);
            },
            Some(Request::ApplyTorque { dipole, duration }) => {
                self.handle_torque_command(tc_id, dipole, duration, now);
            },
            None => {},
        }
    }

    fn handle_mode_leaf_handling(&mut self, now: Instant)
        requires
            old(self)@.inv(),
        ensures
            final(self)@ == old(self)@.mode_requests_handled(now.nanos as nat),
            final(self)@.inv(),
    {
        let mut queue: VecDeque<ModeRequest> = VecDeque::new();
        std::mem::swap(&mut queue, &mut self.mode_leaf_helper.requests);
        while queue.len() > 0
            invariant
                self@.inv(),
                self@.after_mode_requests(queue@, now.nanos as nat) == old(
                    self,
                )@.mode_requests_handled(now.nanos as nat),
            decreases queue@.len(),
        {
            let ghost waiting = queue@;
            if let Some(request) = queue.pop_front() {
                match request {
                    ModeRequest::SetMode(mode) => self.handle_mode_command(mode, None, now),
                    ModeRequest::ReadMode => self.report_mode_to_parent(),
                }
                assert(queue@ =~= waiting.drop_first());
            }
        }
    }

    fn handle_mode_command(
        &mut self,
        target_mode: DeviceMode,
        tc_commander: Option<CcsdsPacketIdAndPsc>,
        now: Instant,
    )
        ensures
            final(self)@ == old(self)@.mode_commanded(target_mode, tc_commander, now.nanos as nat),
            old(self)@.inv() ==> final(self)@.inv(),
    {
        self.fdir.handle_mode_command(&self.switch_and_mode_helper);
        self.start_transition(target_mode, tc_commander, now);
    }

    fn handle_hk_request(&mut self, tc_id: CcsdsPacketIdAndPsc, hk_request: HkRequestType)
        ensures
            final(self)@ == old(self)@.hk_requested(tc_id, hk_request),
    {
        match hk_request {
            HkRequestType::OneShot => {
                let hk_set = self.hk_set;
                self.send_telemetry(Some(tc_id), Response::Hk(hk_set));
            },
            hk_request => {
                self.hk_helper.configure(hk_request);
            },
        }
    }

    fn handle_torque_command(
        &mut self,
        tc_id: CcsdsPacketIdAndPsc,
        dipole: Dipole,
        duration: Duration,
        now: Instant,
    )
        ensures
            final(self)@ == old(self)@.torque_commanded(
                tc_id,
                dipole,
                duration,
                now.nanos as nat,
            ),
            old(self)@.inv() ==> final(self)@.inv(),
    {
        if !self.ready_for_commanding() {
            self.send_telemetry(Some(tc_id), Response::NotInNormalMode);
            return;
        }
        self.send_request(
            sim_mgt::Request::ApplyTorque {
                duration,
                dipole: sim_mgt::Dipole { x: dipole.x, y: dipole.y, z: dipole.z },
            },
            now,
        );
        self.send_telemetry(Some(tc_id), Response::Success);
    }

    fn start_transition(
        &mut self,
        target_mode: DeviceMode,
        tc_commander: Option<CcsdsPacketIdAndPsc>,
        now: Instant,
    )
        ensures
            final(self)@ == (MgtHandlerModel {
                device: SupervisedModel {
                    modes: old(self)@.device.modes.transition_started(
                        target_mode,
                        tc_commander,
                        now.nanos as nat,
                    ),
                    ..old(self)@.device
                },
                set: if target_mode == DeviceMode::Off {
                    HkSet::spec_default()
                } else {
                    old(self)@.set
                },
                ..old(self)@
            }),
    {
        if target_mode == DeviceMode::Off {
            self.hk_set = HkSet::default();
        }
        self.switch_and_mode_helper.start_transition_at(target_mode, tc_commander, now);
    }

    fn handle_mode_reached(&mut self, tc_commander: Option<CcsdsPacketIdAndPsc>)
        ensures
            final(self)@ == old(self)@.mode_reached(tc_commander),
    {
        let mode = self.mode();
        self.send_event(Event::ModeChanged(mode));
        if tc_commander.is_some() {
            self.send_telemetry(tc_commander, Response::Success);
        }
        self.report_mode_to_parent();
    }

    fn handle_mode_transition_failure(&mut self, tc_commander: Option<CcsdsPacketIdAndPsc>)
        ensures
            final(self)@ == old(self)@.mode_failed(tc_commander),
    {
        if tc_commander.is_some() {
            self.send_telemetry(tc_commander, Response::Mode(ModeResponse::SetModeTimeout));
        }
        self.mode_leaf_helper.reports.push(ModeResponse::SetModeTimeout);
    }

    fn report_mode_to_parent(&mut self)
        ensures
            final(self)@ == old(self)@.mode_reported(),
    {
        let mode = self.switch_and_mode_helper.reported_mode();
        self.mode_leaf_helper.reports.push(ModeResponse::Mode(mode));
    }

    fn send_event(&mut self, event: Event)
        ensures
            final(self)@ == old(self)@.with_event(event),
    {
        self.event_queue.push(event);
    }

    fn send_telemetry(&mut self, tc_id: Option<CcsdsPacketIdAndPsc>, response: Response)
        ensures
            final(self)@ == old(self)@.with_tm(tc_id, response),
    {
        self.tm_queue.push((tc_id, response));
    }
}

} // verus!
