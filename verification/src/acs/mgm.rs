//! Magnetometer handler.

use std::collections::VecDeque;
use vstd::prelude::*;

use crate::acs::Telecommand;
use crate::bytes;
use crate::device_fdir::{
    lemma_power_is_lost, power_is_lost, DeviceFdir, FdirEvent, FdirModel, SupervisedModel,
};
use crate::device_mode::{ModeModel, ModeTransitionEvent, SwitchAndModeHelper};
use crate::eps::{PowerModel, PowerSwitchHelper, SwitchSet};
use crate::fdir::{CounterModel, FaultCounterStd, RecoveryEvent};
use crate::health::{HealthState, HealthTableMap, HealthTableProvider};
use crate::hk::{HkHelperSingleSet, HkModel};
use crate::minisim::acs::mgm as sim_mgm;
use crate::minisim::{MonotonicTime, SimReply, SimRequest, SimRequestWithTime};
use crate::time::{Clock, Duration, Instant};
use crate::types::acs::mgm::request::{HealthRequest, HkRequest, ModeRequest, Request};
use crate::types::acs::mgm::response::{HkResponse, ModeResponse, Response};
use crate::types::acs::mgm::{Event, SensorData};
use crate::types::ccsds::CcsdsPacketIdAndPsc;
use crate::types::pcdu::{SwitchId, SwitchRequest};
use crate::types::{ComponentId, DeviceMode, HkRequestType};

verus! {

/// Number of registers which are read in one transfer.
pub const NR_OF_DATA_AND_CFG_REGISTERS: usize = 14;

/// Position of the X axis in the raw reply.
pub const X_LOWBYTE_IDX: usize = 9;

/// Position of the Y axis in the raw reply.
pub const Y_LOWBYTE_IDX: usize = 11;

/// Position of the Z axis in the raw reply.
pub const Z_LOWBYTE_IDX: usize = 13;

/// FDIR configuration for a stuck SPI bus (data pinned to all-1s). Chosen so a handful of
/// transient errors are tolerated but a persistently faulty bus is caught quickly.
///
/// SPI itself cannot time out: the master clocks bytes in lockstep, so a transfer always
/// completes. An unresponsive or dead device does not withhold a reply, it just leaves the bus
/// floating, which is read back as this same all-1s pattern.
pub const SPI_FAULT_THRESHOLD: u32 = 2;

/// Time after which an SPI fault is forgotten, in seconds.
pub const SPI_FAULT_DECREMENT_AFTER: u64 = 30;

/// Magnetometer of the satellite.
#[derive(Debug, Clone, Copy, PartialEq, Eq, Structural)]
pub enum MgmId {
    _0,
    _1,
}

impl MgmId {
    /// Name of the device.
    pub fn str(&self) -> (name: &'static str)
        ensures
            name@ == (match self {
                MgmId::_0 => "MGM 0"@,
                MgmId::_1 => "MGM 1"@,
            }),
    {
        match self {
            MgmId::_0 => "MGM 0",
            MgmId::_1 => "MGM 1",
        }
    }

    /// Component of the device.
    pub open spec fn spec_component_id(self) -> ComponentId {
        match self {
            MgmId::_0 => ComponentId::AcsMgm0,
            MgmId::_1 => ComponentId::AcsMgm1,
        }
    }

    /// Component of the device.
    pub fn component_id(&self) -> (id: ComponentId)
        ensures
            id == self.spec_component_id(),
    {
        match self {
            MgmId::_0 => ComponentId::AcsMgm0,
            MgmId::_1 => ComponentId::AcsMgm1,
        }
    }

    /// Power switch of the device.
    pub open spec fn spec_switch_id(self) -> SwitchId {
        match self {
            MgmId::_0 => SwitchId::Mgm0,
            MgmId::_1 => SwitchId::Mgm1,
        }
    }

    /// Power switch of the device.
    pub fn switch_id(&self) -> (id: SwitchId)
        ensures
            id == self.spec_switch_id(),
    {
        match self {
            MgmId::_0 => SwitchId::Mgm0,
            MgmId::_1 => SwitchId::Mgm1,
        }
    }

    /// Simulated device.
    pub open spec fn spec_sim_id(self) -> sim_mgm::Id {
        match self {
            MgmId::_0 => sim_mgm::Id::Mgm0,
            MgmId::_1 => sim_mgm::Id::Mgm1,
        }
    }

    /// Simulated device.
    pub fn sim_id(&self) -> (id: sim_mgm::Id)
        ensures
            id == self.spec_sim_id(),
    {
        match self {
            MgmId::_0 => sim_mgm::Id::Mgm0,
            MgmId::_1 => sim_mgm::Id::Mgm1,
        }
    }
}

/// Receive buffer after the data registers were read, with the two bytes of each axis in the
/// order in which they arrived.
pub open spec fn registers_read(rx: Seq<u8>, x: Seq<u8>, y: Seq<u8>, z: Seq<u8>) -> Seq<u8> {
    rx.update(9, x[0]).update(10, x[1]).update(11, y[0]).update(12, y[1]).update(13, z[0]).update(
        14,
        z[1],
    )
}

/// Sensor values in the receive buffer, which are in little endian order.
pub open spec fn raw_values(rx: Seq<u8>) -> sim_mgm::RawValues {
    sim_mgm::RawValues {
        x: bytes::join_i16(rx[10], rx[9]),
        y: bytes::join_i16(rx[12], rx[11]),
        z: bytes::join_i16(rx[14], rx[13]),
    }
}

/// Stores the two bytes of an axis.
fn store_register(rx: &mut [u8; 32], idx: usize, first: u8, second: u8)
    requires
        idx < 31,
    ensures
        final(rx)@ == old(rx)@.update(idx as int, first).update(idx + 1, second),
{
    rx[idx] = first;
    rx[idx + 1] = second;
}

/// Stores sensor values in little endian order.
fn store_values(rx: &mut [u8; 32], values: sim_mgm::RawValues)
    ensures
        final(rx)@ == registers_read(
            old(rx)@,
            bytes::le_i16(values.x),
            bytes::le_i16(values.y),
            bytes::le_i16(values.z),
        ),
{
    let (x_high, x_low) = bytes::i16_to_bytes(values.x);
    let (y_high, y_low) = bytes::i16_to_bytes(values.y);
    let (z_high, z_low) = bytes::i16_to_bytes(values.z);
    store_register(rx, X_LOWBYTE_IDX, x_low, x_high);
    store_register(rx, Y_LOWBYTE_IDX, y_low, y_high);
    store_register(rx, Z_LOWBYTE_IDX, z_low, z_high);
}

/// Interface without a device, which always delivers the same values.
#[derive(Debug, Clone, Copy, PartialEq, Eq, Structural)]
pub struct SpiDummyInterface {
    pub dummy_values: sim_mgm::RawValues,
}

impl Default for SpiDummyInterface {
    fn default() -> (interface: Self)
        ensures
            interface.dummy_values == sim_mgm::RawValues::spec_splat(0),
    {
        SpiDummyInterface { dummy_values: sim_mgm::RawValues::splat(0) }
    }
}

impl SpiDummyInterface {
    /// Delivers the dummy values in little endian order, like the device does.
    fn transfer(&self, rx: &mut [u8; 32])
        ensures
            final(rx)@ == registers_read(
                old(rx)@,
                bytes::le_i16(self.dummy_values.x),
                bytes::le_i16(self.dummy_values.y),
                bytes::le_i16(self.dummy_values.z),
            ),
    {
        store_values(rx, self.dummy_values);
    }
}

/// Interface which counts the transfers and delivers the values it was given.
#[derive(Debug, Clone, Copy, PartialEq, Eq, Structural)]
pub struct TestSpiInterface {
    pub call_count: u32,
    pub next_mgm_data: sim_mgm::RawValues,
}

impl Default for TestSpiInterface {
    fn default() -> (interface: Self)
        ensures
            interface.call_count == 0,
            interface.next_mgm_data == sim_mgm::RawValues::spec_splat(0),
    {
        TestSpiInterface { call_count: 0, next_mgm_data: sim_mgm::RawValues::splat(0) }
    }
}

impl TestSpiInterface {
    fn transfer(&mut self, rx: &mut [u8; 32])
        requires
            old(self).call_count < u32::MAX,
        ensures
            *final(self) == (TestSpiInterface {
                call_count: (old(self).call_count + 1) as u32,
                ..*old(self)
            }),
            final(rx)@ == registers_read(
                old(rx)@,
                bytes::le_i16(old(self).next_mgm_data.x),
                bytes::le_i16(old(self).next_mgm_data.y),
                bytes::le_i16(old(self).next_mgm_data.z),
            ),
    {
        store_values(rx, self.next_mgm_data);
        self.call_count = self.call_count + 1;
    }
}

/// Interface to a simulated device.
///
/// Requests are queued until they are collected for the simulator. The reply has to be provided
/// before the transfer; there is none if the simulator did not reply in time.
#[derive(Debug, Clone)]
pub struct SpiSimInterface {
    pub id: MgmId,
    pub requests: Vec<SimRequestWithTime>,
    pub reply: Option<SimReply>,
}

/// Request for the sensor data of a simulated device.
pub open spec fn sensor_data_request(id: MgmId) -> SimRequestWithTime {
    SimRequestWithTime {
        request: SimRequest::Mgm {
            id: id.spec_sim_id(),
            request: sim_mgm::Request::RequestSensorData,
        },
        timestamp: MonotonicTime { secs: 0, subsec_nanos: 0 },
    }
}

/// Receive buffer after a transfer with a simulated device. Without the expected reply, the
/// buffer keeps what was read last.
pub open spec fn sim_reply_read(rx: Seq<u8>, id: MgmId, sim_reply: Option<SimReply>) -> Seq<u8> {
    match sim_reply {
        Some(SimReply::Mgm { id: reply_id, reply }) => if reply_id == id.spec_sim_id() {
            registers_read(
                rx,
                bytes::le_i16(reply.raw.x),
                bytes::le_i16(reply.raw.y),
                bytes::le_i16(reply.raw.z),
            )
        } else {
            rx
        },
        _ => rx,
    }
}

impl SpiSimInterface {
    /// Interface without requests and replies.
    pub fn new(id: MgmId) -> (interface: Self)
        ensures
            interface.id == id,
            interface.requests@ == Seq::<SimRequestWithTime>::empty(),
            interface.reply is None,
    {
        SpiSimInterface { id, requests: Vec::new(), reply: None }
    }

    /// Right now, we only support requesting sensor data and not configuration of the sensor.
    fn request(&mut self)
        ensures
            final(self).id == old(self).id,
            final(self).requests@ == old(self).requests@.push(sensor_data_request(old(self).id)),
            final(self).reply == old(self).reply,
    {
        self.requests.push(
            SimRequestWithTime::new_with_epoch_time(
                SimRequest::Mgm {
                    id: self.id.sim_id(),
                    request: sim_mgm::Request::RequestSensorData,
                },
            ),
        );
    }

    fn transfer(&mut self, rx: &mut [u8; 32])
        ensures
            final(self).id == old(self).id,
            final(self).requests@ == old(self).requests@,
            final(self).reply is None,
            final(rx)@ == sim_reply_read(old(rx)@, old(self).id, old(self).reply),
    {
        if let Some(SimReply::Mgm { id, reply }) = self.reply.take() {
            if id == self.id.sim_id() {
                store_values(rx, reply.raw);
            }
        }
    }
}

/// Communication with the device.
#[derive(Debug, Clone)]
pub enum SpiCommunication {
    Dummy(SpiDummyInterface),
    Sim(SpiSimInterface),
    Test(TestSpiInterface),
}

/// Mathematical model of the [SpiCommunication].
pub enum SpiModel {
    Dummy(sim_mgm::RawValues),
    Sim { id: MgmId, requests: Seq<SimRequestWithTime>, reply: Option<SimReply> },
    Test { call_count: nat, next: sim_mgm::RawValues },
}

impl SpiModel {
    /// The transfer counter of a test interface can count one more transfer.
    pub open spec fn ready(self) -> bool {
        self matches SpiModel::Test { call_count, .. } ==> call_count < u32::MAX
    }

    /// A transfer is about to take place.
    pub open spec fn requested(self) -> SpiModel {
        match self {
            SpiModel::Sim { id, requests, reply } => SpiModel::Sim {
                id,
                requests: requests.push(sensor_data_request(id)),
                reply,
            },
            _ => self,
        }
    }

    /// A transfer took place.
    pub open spec fn transferred(self) -> SpiModel {
        match self {
            SpiModel::Dummy(values) => self,
            SpiModel::Sim { id, requests, .. } => SpiModel::Sim { id, requests, reply: None },
            SpiModel::Test { call_count, next } => SpiModel::Test {
                call_count: call_count + 1,
                next,
            },
        }
    }

    /// Receive buffer after a transfer.
    pub open spec fn received(self, rx: Seq<u8>) -> Seq<u8> {
        match self {
            SpiModel::Dummy(values) => registers_read(
                rx,
                bytes::le_i16(values.x),
                bytes::le_i16(values.y),
                bytes::le_i16(values.z),
            ),
            SpiModel::Sim { id, reply, .. } => sim_reply_read(rx, id, reply),
            SpiModel::Test { next, .. } => registers_read(
                rx,
                bytes::le_i16(next.x),
                bytes::le_i16(next.y),
                bytes::le_i16(next.z),
            ),
        }
    }
}

impl View for SpiCommunication {
    type V = SpiModel;

    open spec fn view(&self) -> SpiModel {
        match self {
            SpiCommunication::Dummy(interface) => SpiModel::Dummy(interface.dummy_values),
            SpiCommunication::Sim(interface) => SpiModel::Sim {
                id: interface.id,
                requests: interface.requests@,
                reply: interface.reply,
            },
            SpiCommunication::Test(interface) => SpiModel::Test {
                call_count: interface.call_count as nat,
                next: interface.next_mgm_data,
            },
        }
    }
}

impl SpiCommunication {
    fn request(&mut self)
        ensures
            final(self)@ == old(self)@.requested(),
    {
        match self {
            SpiCommunication::Sim(interface) => interface.request(),
            SpiCommunication::Dummy(_) | SpiCommunication::Test(_) => {},
        }
    }

    fn transfer(&mut self, rx: &mut [u8; 32])
        requires
            old(self)@.ready(),
        ensures
            final(self)@ == old(self)@.transferred(),
            final(rx)@ == old(self)@.received(old(rx)@),
    {
        match self {
            SpiCommunication::Dummy(interface) => interface.transfer(rx),
            SpiCommunication::Sim(interface) => interface.transfer(rx),
            SpiCommunication::Test(interface) => interface.transfer(rx),
        }
    }
}

/// Mathematical model of the [MgmHandlerLis3Mdl].
pub struct MgmModel {
    /// Handled device.
    pub id: MgmId,
    /// Telecommands which were not handled yet.
    pub tcs: Seq<Telecommand<Request>>,
    /// Telemetry which was not collected yet, with the telecommand it responds to.
    pub tms: Seq<(Option<CcsdsPacketIdAndPsc>, Response)>,
    /// Communication with the device.
    pub spi: SpiModel,
    /// Receive buffer.
    pub rx: Seq<u8>,
    /// Sensor data.
    pub set: SensorData,
    /// Housekeeping settings.
    pub hk: HkModel,
    /// Mode, power switch and FDIR of the device.
    pub device: SupervisedModel,
    /// Mode requests of the parent which were not handled yet.
    pub mode_requests: Seq<ModeRequest>,
    /// Mode reports to the parent which were not collected yet.
    pub mode_reports: Seq<ModeResponse>,
    /// Events which were not collected yet.
    pub events: Seq<(ComponentId, Event)>,
    /// Clock which tells the time.
    pub clock: Clock,
}

/// Event of the handler for an FDIR event.
pub open spec fn mgm_event(event: FdirEvent) -> Event {
    match event {
        FdirEvent::FaultThresholdExceeded => Event::SpiFaultThresholdExceeded,
        FdirEvent::Recovery(recovery_event) => Event::Recovery(recovery_event),
    }
}

impl MgmModel {
    /// Handler of a switched off device.
    pub open spec fn fresh(
        id: MgmId,
        power: PowerModel,
        spi: SpiModel,
        set: SensorData,
        mode_timeout: nat,
        entries: Map<u32, HealthState>,
        clock: Clock,
    ) -> MgmModel {
        MgmModel {
            id,
            tcs: Seq::empty(),
            tms: Seq::empty(),
            spi,
            rx: Seq::new(32, |i: int| 0u8),
            set,
            hk: HkModel { enabled: false, frequency: 200_000_000, last: None },
            device: SupervisedModel {
                fdir: FdirModel::fresh(
                    match id {
                        MgmId::_0 => "MGM 0"@,
                        MgmId::_1 => "MGM 1"@,
                    },
                    id.spec_component_id().spec_raw(),
                    entries,
                    CounterModel::fresh(2, 30_000_000_000),
                    clock,
                ),
                modes: ModeModel::fresh(
                    DeviceMode::Off,
                    mode_timeout,
                    power,
                    id.spec_switch_id(),
                    clock,
                ),
            },
            mode_requests: Seq::empty(),
            mode_reports: Seq::empty(),
            events: Seq::empty(),
            clock,
        }
    }

    /// The fault counters stay within their thresholds, and the receive buffer keeps its size.
    pub open spec fn inv(self) -> bool {
        &&& self.rx.len() == 32
        &&& self.device.fdir.inv()
        &&& self.device.fdir.counter.failure_threshold == SPI_FAULT_THRESHOLD
        &&& self.device.fdir.counter.fault_count <= self.device.fdir.counter.failure_threshold
    }

    /// Telemetry is sent.
    pub open spec fn with_tm(
        self,
        tc_id: Option<CcsdsPacketIdAndPsc>,
        response: Response,
    ) -> MgmModel {
        MgmModel { tms: self.tms.push((tc_id, response)), ..self }
    }

    /// An event is sent.
    pub open spec fn with_event(self, event: Event) -> MgmModel {
        MgmModel { events: self.events.push((self.id.spec_component_id(), event)), ..self }
    }

    /// The parent gets a mode report.
    pub open spec fn with_report(self, report: ModeResponse) -> MgmModel {
        MgmModel { mode_reports: self.mode_reports.push(report), ..self }
    }

    /// The parent is told the mode.
    pub open spec fn mode_reported(self) -> MgmModel {
        self.with_report(ModeResponse::Mode(self.device.modes.reported_mode()))
    }

    /// The sensor data is not valid anymore.
    pub open spec fn invalidated(self) -> MgmModel {
        MgmModel { set: SensorData { valid: false, ..self.set }, ..self }
    }

    /// The sensor data is sent.
    pub open spec fn hk_generated(self, tc_id: Option<CcsdsPacketIdAndPsc>) -> MgmModel {
        self.with_tm(tc_id, Response::Hk(HkResponse::MgmData(self.set)))
    }

    /// A housekeeping request is executed.
    pub open spec fn hk_requested(
        self,
        tc_id: Option<CcsdsPacketIdAndPsc>,
        request: HkRequest,
    ) -> MgmModel {
        if request.req_type is OneShot {
            self.hk_generated(tc_id)
        } else {
            MgmModel { hk: self.hk.configured(request.req_type), ..self }
        }
    }

    /// A mode is commanded. Sensor data is not valid anymore if the device is switched off.
    pub open spec fn mode_commanded(
        self,
        target: DeviceMode,
        commander: Option<CcsdsPacketIdAndPsc>,
        now: nat,
    ) -> MgmModel {
        MgmModel {
            device: SupervisedModel {
                fdir: self.device.fdir.after_mode_command(self.device.modes),
                modes: self.device.modes.transition_started(target, commander, now),
            },
            set: if target == DeviceMode::Off {
                SensorData { valid: false, ..self.set }
            } else {
                self.set
            },
            ..self
        }
    }

    /// A health is commanded.
    pub open spec fn health_set(self, health: HealthState) -> MgmModel {
        MgmModel {
            device: SupervisedModel {
                fdir: FdirModel {
                    recovery: self.device.fdir.recovery.with_health(health),
                    ..self.device.fdir
                },
                ..self.device
            },
            ..self
        }
    }

    /// A telecommand is executed. One which could not be decoded is ignored.
    pub open spec fn tc_handled(self, tc: Telecommand<Request>, now: nat) -> MgmModel {
        let tc_id = Some(tc.spec_tc_id());
        match tc.request {
            None => self,
            Some(Request::Ping) => self.with_tm(tc_id, Response::Success),
            Some(Request::Hk(request)) => self.hk_requested(tc_id, request),
            Some(Request::Mode(ModeRequest::SetMode(mode))) => self.mode_commanded(
                mode,
                tc_id,
                now,
            ),
            Some(Request::Mode(ModeRequest::ReadMode)) => self.with_tm(
                tc_id,
                Response::Mode(ModeResponse::Mode(self.device.modes.reported_mode())),
            ),
            Some(Request::Health(HealthRequest::SetHealth(health))) => self.health_set(
                health,
            ).with_tm(tc_id, Response::Success),
        }
    }

    /// Telecommands are executed one after the other.
    pub open spec fn after_tcs(self, tcs: Seq<Telecommand<Request>>, now: nat) -> MgmModel
        decreases tcs.len(),
    {
        if tcs.len() == 0 {
            self
        } else {
            self.tc_handled(tcs[0], now).after_tcs(tcs.drop_first(), now)
        }
    }

    /// All queued telecommands are executed.
    pub open spec fn tcs_handled(self, now: nat) -> MgmModel {
        MgmModel { tcs: Seq::empty(), ..self }.after_tcs(self.tcs, now)
    }

    /// A mode request of the parent is executed.
    pub open spec fn mode_request_handled(self, request: ModeRequest, now: nat) -> MgmModel {
        match request {
            ModeRequest::SetMode(mode) => self.mode_commanded(mode, None, now),
            ModeRequest::ReadMode => self.mode_reported(),
        }
    }

    /// Mode requests of the parent are executed one after the other.
    pub open spec fn after_mode_requests(self, requests: Seq<ModeRequest>, now: nat) -> MgmModel
        decreases requests.len(),
    {
        if requests.len() == 0 {
            self
        } else {
            self.mode_request_handled(requests[0], now).after_mode_requests(
                requests.drop_first(),
                now,
            )
        }
    }

    /// All queued mode requests of the parent are executed.
    pub open spec fn mode_requests_handled(self, now: nat) -> MgmModel {
        MgmModel { mode_requests: Seq::empty(), ..self }.after_mode_requests(
            self.mode_requests,
            now,
        )
    }

    /// The given FDIR events are sent in their order. The sensor data is not valid anymore if
    /// one of them means that the device loses its power.
    pub open spec fn events_sent(self, queued: Seq<FdirEvent>) -> MgmModel {
        MgmModel {
            set: SensorData { valid: self.set.valid && !power_is_lost(queued), ..self.set },
            events: self.events + queued.map_values(
                |event: FdirEvent| (self.id.spec_component_id(), mgm_event(event)),
            ),
            ..self
        }
    }

    /// Sending events one after the other is the same as sending all of them.
    proof fn lemma_first_event_sent(self, queued: Seq<FdirEvent>)
        requires
            queued.len() > 0,
        ensures
            self.events_sent(queued) == self.events_sent(seq![queued[0]]).events_sent(
                queued.drop_first(),
            ),
            self.events_sent(seq![queued[0]]) == (MgmModel {
                set: SensorData {
                    valid: self.set.valid && queued[0] != FdirEvent::Recovery(
                        RecoveryEvent::Started,
                    ) && queued[0] != FdirEvent::Recovery(RecoveryEvent::ThresholdExceeded),
                    ..self.set
                },
                ..self.with_event(mgm_event(queued[0]))
            }),
    {
        let rest = queued.drop_first();
        let first = seq![queued[0]];
        lemma_power_is_lost(queued);
        let sent = self.events_sent(first);
        assert(sent.events =~= self.with_event(mgm_event(queued[0])).events);
        assert(self.events_sent(queued).events =~= sent.events_sent(rest).events);
    }

    /// The queued FDIR events are sent.
    pub open spec fn fdir_events_sent(self) -> MgmModel {
        MgmModel {
            device: SupervisedModel {
                fdir: FdirModel { events: Seq::empty(), ..self.device.fdir },
                ..self.device
            },
            ..self
        }.events_sent(self.device.fdir.events)
    }

    /// A mode transition completed: it is announced, confirmed to the commander and reported to
    /// the parent.
    pub open spec fn mode_reached(self, commander: Option<CcsdsPacketIdAndPsc>) -> MgmModel {
        let announced = self.with_event(Event::ModeChanged(self.device.modes.current));
        let confirmed = match commander {
            Some(_) => announced.with_tm(commander, Response::Success),
            None => announced,
        };
        confirmed.mode_reported()
    }

    /// A mode transition failed, which the commander and the parent are told.
    pub open spec fn mode_failed(self, commander: Option<CcsdsPacketIdAndPsc>) -> MgmModel {
        let answered = match commander {
            Some(_) => self.with_tm(commander, Response::Mode(ModeResponse::SetModeTimeout)),
            None => self,
        };
        answered.with_report(ModeResponse::SetModeTimeout)
    }

    /// The FDIR has its turn.
    pub open spec fn fdir_cycled(self, now: nat) -> MgmModel {
        MgmModel { device: self.device.cycled(now), ..self }.fdir_events_sent()
    }

    /// The mode transition is driven.
    pub open spec fn mode_handled(self, now: nat) -> MgmModel {
        let driven = MgmModel {
            device: SupervisedModel { modes: self.device.modes.handled(now), ..self.device },
            ..self
        };
        match self.device.modes.handled_event(now) {
            None => driven,
            Some(ModeTransitionEvent::Reached(commander)) => driven.mode_reached(commander),
            Some(ModeTransitionEvent::Failed(commander)) => driven.mode_failed(commander),
            Some(ModeTransitionEvent::PowerCycleDone) => MgmModel {
                device: SupervisedModel {
                    fdir: driven.device.fdir.after_power_cycle_done(),
                    ..driven.device
                },
                ..driven
            }.fdir_events_sent(),
            Some(ModeTransitionEvent::PowerCycleFailed { restore_mode }) => MgmModel {
                device: driven.device.after_power_cycle_failed(restore_mode, now),
                ..driven
            }.fdir_events_sent(),
        }
    }

    /// The device is polled in normal mode, but not during mode transitions.
    pub open spec fn poll_due(self) -> bool {
        self.device.modes.current == DeviceMode::Normal && self.device.modes.target is None
    }

    /// Sensor values in the receive buffer after a transfer.
    pub open spec fn next_values(self) -> sim_mgm::RawValues {
        raw_values(self.spi.received(self.rx))
    }

    /// The bus reads back as all-1s.
    pub open spec fn bus_is_stuck(self) -> bool {
        self.next_values() == sim_mgm::RawValues::spec_splat(sim_mgm::ALL_ONES_SENSOR_VAL)
    }

    /// An SPI fault is registered.
    pub open spec fn spi_fault_registered(self, now: nat) -> MgmModel {
        MgmModel { device: self.device.after_fault(now), ..self.invalidated() }.fdir_events_sent()
    }

    /// The device is asked for data, if it has to be, and polled.
    pub open spec fn sensor_polled(self, now: nat) -> MgmModel {
        MgmModel { spi: self.spi.requested(), ..self }.polled(now)
    }

    /// The device is polled. A stuck bus is a fault, anything else is sensor data.
    pub open spec fn polled(self, now: nat) -> MgmModel {
        let transferred = MgmModel {
            spi: self.spi.transferred(),
            rx: self.spi.received(self.rx),
            ..self
        };
        if self.bus_is_stuck() {
            transferred.spi_fault_registered(now)
        } else {
            MgmModel {
                device: SupervisedModel {
                    fdir: self.device.fdir.after_success(now),
                    ..self.device
                },
                set: SensorData { valid: true, raw: self.next_values() },
                ..transferred
            }
        }
    }

    /// Periodic housekeeping data is sent if it is due.
    pub open spec fn hk_checked(self, now: nat) -> MgmModel {
        let checked = MgmModel { hk: self.hk.checked(now), ..self };
        if self.hk.due(now) {
            checked.hk_generated(None)
        } else {
            checked
        }
    }

    /// First part of a cycle: commands, FDIR and mode transitions.
    pub open spec fn cycle_prepared(self, now: nat) -> MgmModel {
        self.tcs_handled(now).mode_requests_handled(now).fdir_cycled(now).mode_handled(now)
    }

    /// First part of a cycle, up to the communication with the device.
    pub open spec fn cycle_started(self, now: nat) -> MgmModel {
        let prepared = self.cycle_prepared(now);
        if prepared.poll_due() {
            MgmModel { spi: prepared.spi.requested(), ..prepared }
        } else {
            prepared
        }
    }

    /// Second part of a cycle: sensor data and housekeeping.
    pub open spec fn cycle_finished(self, now: nat) -> MgmModel {
        if self.poll_due() {
            self.polled(now).hk_checked(now)
        } else {
            self.hk_checked(now)
        }
    }

    /// One cycle.
    pub open spec fn cycled(self, now: nat) -> MgmModel {
        self.cycle_started(now).cycle_finished(now)
    }
}

/// Receive buffer for the communication with the device.
#[derive(Debug, Clone, Copy)]
pub struct BufWrapper {
    rx_buf: [u8; 32],
}

/// Example MGM device handler strongly based on the LIS3MDL MEMS device.
///
/// This device handler includes several components beyond the scope of reading sensor values:
///
/// - FDIR handling on communication issues.
/// - FDIR helper for power cycling the device on communication issues.
/// - Event generation for certain events like communication issues.
/// - HK helper for periodic data generation.
/// - Mode leaf helper to allow integration into a full ACS mode tree
///
/// Every operation which needs the time exists twice: once reading the clock of the handler, and
/// once with the reading as an argument.
#[derive(Debug, Clone)]
pub struct MgmHandlerLis3Mdl {
    id: MgmId,
    tc_queue: VecDeque<Telecommand<Request>>,
    tm_queue: Vec<(Option<CcsdsPacketIdAndPsc>, Response)>,
    spi_com: SpiCommunication,
    mgm_set: SensorData,
    buffers: BufWrapper,
    hk_helper: HkHelperSingleSet,
    switch_and_mode_helper: SwitchAndModeHelper<DeviceMode>,
    mode_leaf_helper: ModeLeafHelper,
    fdir: DeviceFdir,
    event_queue: Vec<(ComponentId, Event)>,
    clock: Clock,
}

/// Helper component for communication with a parent component, which is usually an assembly.
#[derive(Debug, Clone)]
pub struct ModeLeafHelper {
    pub requests: VecDeque<ModeRequest>,
    pub reports: Vec<ModeResponse>,
}

impl ModeLeafHelper {
    /// Helper with empty queues.
    pub fn new() -> (helper: Self)
        ensures
            helper.requests@ == Seq::<ModeRequest>::empty(),
            helper.reports@ == Seq::<ModeResponse>::empty(),
    {
        ModeLeafHelper { requests: VecDeque::new(), reports: Vec::new() }
    }
}

impl View for MgmHandlerLis3Mdl {
    type V = MgmModel;

    closed spec fn view(&self) -> MgmModel {
        MgmModel {
            id: self.id,
            tcs: self.tc_queue@,
            tms: self.tm_queue@,
            spi: self.spi_com@,
            rx: self.buffers.rx_buf@,
            set: self.mgm_set,
            hk: self.hk_helper@,
            device: SupervisedModel { fdir: self.fdir@, modes: self.switch_and_mode_helper@ },
            mode_requests: self.mode_leaf_helper.requests@,
            mode_reports: self.mode_leaf_helper.reports@,
            events: self.event_queue@,
            clock: self.clock,
        }
    }
}

impl MgmHandlerLis3Mdl {
    /// Handler of a switched off device.
    pub fn new(
        id: MgmId,
        switch_helper: PowerSwitchHelper,
        spi_com: SpiCommunication,
        mgm_set: SensorData,
        mode_timeout: Duration,
        health_table: HealthTableMap,
    ) -> (handler: Self)
        ensures
            handler@ == MgmModel::fresh(
                id,
                switch_helper@,
                spi_com@,
                mgm_set,
                mode_timeout.nanos as nat,
                health_table.entries(),
                handler@.clock,
            ),
            handler@.inv(),
    {
        let clock = Clock::new();
        let handler = MgmHandlerLis3Mdl {
            id,
            tc_queue: VecDeque::new(),
            tm_queue: Vec::new(),
            spi_com,
            mgm_set,
            buffers: BufWrapper { rx_buf: [0; 32] },
            hk_helper: HkHelperSingleSet::new(false, Duration::from_millis(200)),
            switch_and_mode_helper: SwitchAndModeHelper::with_clock(
                DeviceMode::Off,
                mode_timeout,
                switch_helper,
                id.switch_id(),
                clock,
            ),
            mode_leaf_helper: ModeLeafHelper::new(),
            fdir: DeviceFdir::new(
                id.str(),
                id.component_id(),
                health_table,
                FaultCounterStd::with_clock(
                    SPI_FAULT_THRESHOLD,
                    Duration::from_secs(SPI_FAULT_DECREMENT_AFTER),
                    clock,
                ),
            ),
            event_queue: Vec::new(),
            clock,
        };
        assert(handler@.rx =~= Seq::new(32, |i: int| 0u8));
        handler
    }

    /// Component of the handler, which is the sender of all its telemetry.
    pub fn component_id(&self) -> (id: ComponentId)
        ensures
            id == self@.id.spec_component_id(),
    {
        self.id.component_id()
    }

    /// Mode of the device.
    pub fn mode(&self) -> (mode: DeviceMode)
        ensures
            mode == self@.device.modes.current,
    {
        self.switch_and_mode_helper.mode()
    }

    /// Sensor data of the device.
    pub fn sensor_data(&self) -> (data: SensorData)
        ensures
            data == self@.set,
    {
        self.mgm_set
    }

    /// Health of the component.
    pub fn health(&self) -> (health: Option<HealthState>)
        ensures
            health == self@.device.fdir.recovery.health(),
    {
        self.fdir.health()
    }

    /// Current count of SPI faults.
    pub fn fault_count(&self) -> (count: u32)
        ensures
            count == self@.device.fdir.counter.fault_count,
    {
        self.fdir.fault_count()
    }

    /// Target of the mode transition, if there is one.
    pub fn target_mode(&self) -> (target: Option<DeviceMode>)
        ensures
            target == self@.device.modes.target,
    {
        self.switch_and_mode_helper.target()
    }

    /// Communication with the device.
    pub fn spi_com(&self) -> (spi_com: &SpiCommunication)
        ensures
            spi_com@ == self@.spi,
    {
        &self.spi_com
    }

    /// Communication with the device.
    pub fn spi_com_mut(&mut self) -> (spi_com: &mut SpiCommunication)
        ensures
            spi_com@ == old(self)@.spi,
            final(self)@ == (MgmModel { spi: final(spi_com)@, ..old(self)@ }),
    {
        &mut self.spi_com
    }

    /// Sets the health of the component.
    pub fn set_health(&mut self, health: HealthState)
        ensures
            final(self)@ == old(self)@.health_set(health),
            old(self)@.inv() ==> final(self)@.inv(),
    {
        self.fdir.set_health(health);
    }

    /// Sets the time the device stays unpowered during a power cycle.
    pub fn set_recovery_off_duration(&mut self, duration: Duration)
        ensures
            final(self)@ == (MgmModel {
                device: SupervisedModel {
                    fdir: FdirModel {
                        off_duration: duration.nanos as nat,
                        ..old(self)@.device.fdir
                    },
                    ..old(self)@.device
                },
                ..old(self)@
            }),
            old(self)@.inv() ==> final(self)@.inv(),
    {
        self.fdir.set_recovery_off_duration(duration);
    }

    /// Updates the switch states.
    pub fn set_switch_set(&mut self, switch_set: SwitchSet)
        ensures
            final(self)@ == (MgmModel {
                device: SupervisedModel {
                    modes: ModeModel {
                        power: PowerModel { switch_set, ..old(self)@.device.modes.power },
                        ..old(self)@.device.modes
                    },
                    ..old(self)@.device
                },
                ..old(self)@
            }),
            old(self)@.inv() ==> final(self)@.inv(),
    {
        self.switch_and_mode_helper.set_switch_set(switch_set);
    }

    /// Collects all switch requests.
    pub fn take_switch_requests(&mut self) -> (requests: Vec<SwitchRequest>)
        ensures
            requests@ == old(self)@.device.modes.power.requests,
            final(self)@ == (MgmModel {
                device: SupervisedModel {
                    modes: ModeModel {
                        power: PowerModel {
                            requests: Seq::empty(),
                            ..old(self)@.device.modes.power
                        },
                        ..old(self)@.device.modes
                    },
                    ..old(self)@.device
                },
                ..old(self)@
            }),
            old(self)@.inv() ==> final(self)@.inv(),
    {
        self.switch_and_mode_helper.take_switch_requests()
    }

    /// Collects all telemetry, with the telecommands it responds to.
    pub fn take_telemetry(&mut self) -> (tms: Vec<(Option<CcsdsPacketIdAndPsc>, Response)>)
        ensures
            tms@ == old(self)@.tms,
            final(self)@ == (MgmModel { tms: Seq::empty(), ..old(self)@ }),
    {
        let mut tms: Vec<(Option<CcsdsPacketIdAndPsc>, Response)> = Vec::new();
        std::mem::swap(&mut tms, &mut self.tm_queue);
        tms
    }

    /// Collects all mode reports to the parent.
    pub fn take_mode_reports(&mut self) -> (reports: Vec<ModeResponse>)
        ensures
            reports@ == old(self)@.mode_reports,
            final(self)@ == (MgmModel { mode_reports: Seq::empty(), ..old(self)@ }),
    {
        let mut reports: Vec<ModeResponse> = Vec::new();
        std::mem::swap(&mut reports, &mut self.mode_leaf_helper.reports);
        reports
    }

    /// Collects all events.
    pub fn take_events(&mut self) -> (events: Vec<(ComponentId, Event)>)
        ensures
            events@ == old(self)@.events,
            final(self)@ == (MgmModel { events: Seq::empty(), ..old(self)@ }),
    {
        let mut events: Vec<(ComponentId, Event)> = Vec::new();
        std::mem::swap(&mut events, &mut self.event_queue);
        events
    }

    /// Queues a telecommand for the next cycle.
    pub fn queue_telecommand(&mut self, tc: Telecommand<Request>)
        ensures
            final(self)@ == (MgmModel { tcs: old(self)@.tcs.push(tc), ..old(self)@ }),
    {
        self.tc_queue.push_back(tc);
    }

    /// Queues a mode request of the parent for the next cycle.
    pub fn queue_mode_request(&mut self, request: ModeRequest)
        ensures
            final(self)@ == (MgmModel {
                mode_requests: old(self)@.mode_requests.push(request),
                ..old(self)@
            }),
    {
        self.mode_leaf_helper.requests.push_back(request);
    }

    /// Core function called periodically to drive the handler.
    pub fn periodic_operation(&mut self)
        requires
            old(self)@.inv(),
            old(self)@.spi.ready(),
        ensures
            exists|now: nat| final(self)@ == #[trigger] old(self)@.cycled(now),
            final(self)@.inv(),
    {
        let now = self.clock.now();
        self.periodic_operation_at(now);
        assert(self@ == old(self)@.cycled(now.nanos as nat));
    }

    /// [Self::periodic_operation] at the time `now`.
    pub fn periodic_operation_at(&mut self, now: Instant)
        requires
            old(self)@.inv(),
            old(self)@.spi.ready(),
        ensures
            final(self)@ == old(self)@.cycled(now.nanos as nat),
            final(self)@.inv(),
    {
        self.start_cycle_at(now);
        self.finish_cycle_at(now);
    }

    /// First part of a cycle: commands, FDIR and mode transitions. If the device is simulated,
    /// the request to the simulator is queued at the end of it.
    pub fn start_cycle_at(&mut self, now: Instant)
        requires
            old(self)@.inv(),
        ensures
            final(self)@ == old(self)@.cycle_started(now.nanos as nat),
            final(self)@.inv(),
            old(self)@.spi.ready() ==> final(self)@.spi.ready(),
    {
        // Handle requests.
        self.handle_telecommands_at(now);

        // Handle assembly related messages.
        self.handle_mode_leaf_handling_at(now);

        self.fdir.periodic_operation_at(&mut self.switch_and_mode_helper, now);
        self.handle_fdir_events();

        // Handle mode transitions first. This also takes care of recoveries required by FDIR.
        self.handle_mode_transition(now);

        if self.is_poll_due() {
            self.spi_com.request();
        }
    }

    /// Second part of a cycle: sensor data and housekeeping.
    pub fn finish_cycle_at(&mut self, now: Instant)
        requires
            old(self)@.inv(),
            old(self)@.spi.ready(),
        ensures
            final(self)@ == old(self)@.cycle_finished(now.nanos as nat),
            final(self)@.inv(),
    {
        // Poll sensor before checking and generating HK. The device is not polled during mode
        // transitions, which includes all FDIR actions like power cycling or switching off a
        // faulty device. Faults are expected then, and polling would only add noise.
        if self.is_poll_due() {
            self.read_sensor(now);
        }

        // Finally check whether any HK generation is necessary.
        if self.hk_helper.needs_generation_at(now) {
            self.generate_hk(None);
        }
    }

    fn is_poll_due(&self) -> (due: bool)
        ensures
            due == self@.poll_due(),
    {
        self.mode() == DeviceMode::Normal && self.switch_and_mode_helper.target().is_none()
    }

    fn handle_mode_transition(&mut self, now: Instant)
        requires
            old(self)@.inv(),
        ensures
            final(self)@ == old(self)@.mode_handled(now.nanos as nat),
            final(self)@.inv(),
    {
        if let Some(event) = self.switch_and_mode_helper.handle_mode_transition_at(now) {
            match event {
                ModeTransitionEvent::Reached(tc_commander) => {
                    self.handle_mode_reached(tc_commander);
                },
                ModeTransitionEvent::Failed(tc_commander) => {
                    self.handle_mode_transition_failure(tc_commander);
                },
                // The mode did not change for other components, so there is nothing to report.
                ModeTransitionEvent::PowerCycleDone => {
                    self.fdir.handle_power_cycle_done();
                    self.handle_fdir_events();
                },
                ModeTransitionEvent::PowerCycleFailed { restore_mode } => {
                    self.fdir.handle_power_cycle_failed_at(
                        &mut self.switch_and_mode_helper,
                        restore_mode,
                        now,
                    );
                    self.handle_fdir_events();
                },
            }
        }
    }

    /// Executes all queued telecommands.
    pub fn handle_telecommands(&mut self)
        requires
            old(self)@.inv(),
        ensures
            exists|now: nat| final(self)@ == #[trigger] old(self)@.tcs_handled(now),
            final(self)@.inv(),
    {
        let now = self.clock.now();
        self.handle_telecommands_at(now);
        assert(self@ == old(self)@.tcs_handled(now.nanos as nat));
    }

    /// [Self::handle_telecommands] at the time `now`.
    pub fn handle_telecommands_at(&mut self, now: Instant)
        requires
            old(self)@.inv(),
        ensures
            final(self)@ == old(self)@.tcs_handled(now.nanos as nat),
            final(self)@.inv(),
            final(self)@.spi == old(self)@.spi,
    {
        let mut queue: VecDeque<Telecommand<Request>> = VecDeque::new();
        std::mem::swap(&mut queue, &mut self.tc_queue);
        while queue.len() > 0
            invariant
                self@.inv(),
                self@.spi == old(self)@.spi,
                self@.after_tcs(queue@, now.nanos as nat) == old(self)@.tcs_handled(
                    now.nanos as nat,
                ),
            decreases queue@.len(),
        {
            let ghost waiting = queue@;
            if let Some(tc) = queue.pop_front() {
                self.handle_telecommand(tc, now);
                assert(queue@ =~= waiting.drop_first());
            }
        }
    }

    fn handle_telecommand(&mut self, tc: Telecommand<Request>, now: Instant)
        requires
            old(self)@.inv(),
        ensures
            final(self)@ == old(self)@.tc_handled(tc, now.nanos as nat),
            final(self)@.inv(),
    {
        let tc_id = tc.tc_id();
        match tc.request {
            Some(Request::Ping) => self.send_telemetry(Some(tc_id), Response::Success),
            Some(Request::Hk(hk_request)) => self.handle_hk_request(Some(tc_id), &hk_request),
            Some(Request::Mode(ModeRequest::SetMode(device_mode))) => {
                self.handle_mode_command(device_mode, Some(tc_id), now);
            },
            Some(Request::Mode(ModeRequest::ReadMode)) => self.send_telemetry(
                Some(tc_id),
                Response::Mode(
                    ModeResponse::Mode(self.switch_and_mode_helper.reported_mode()),
                ),
            ),
            Some(Request::Health(HealthRequest::SetHealth(health_state))) => {
                self.fdir.set_health(health_state);
                self.send_telemetry(Some(tc_id), Response::Success);
            },
            None => {},
        }
    }

    /// Executes all queued mode requests of the parent.
    pub fn handle_mode_leaf_handling(&mut self)
        requires
            old(self)@.inv(),
        ensures
            exists|now: nat| final(self)@ == #[trigger] old(self)@.mode_requests_handled(now),
            final(self)@.inv(),
    {
        let now = self.clock.now();
        self.handle_mode_leaf_handling_at(now);
        assert(self@ == old(self)@.mode_requests_handled(now.nanos as nat));
    }

    /// [Self::handle_mode_leaf_handling] at the time `now`.
    pub fn handle_mode_leaf_handling_at(&mut self, now: Instant)
        requires
            old(self)@.inv(),
        ensures
            final(self)@ == old(self)@.mode_requests_handled(now.nanos as nat),
            final(self)@.inv(),
            final(self)@.spi == old(self)@.spi,
    {
        let mut queue: VecDeque<ModeRequest> = VecDeque::new();
        std::mem::swap(&mut queue, &mut self.mode_leaf_helper.requests);
        while queue.len() > 0
            invariant
                self@.inv(),
                self@.spi == old(self)@.spi,
                self@.after_mode_requests(queue@, now.nanos as nat) == old(
                    self,
                )@.mode_requests_handled(now.nanos as nat),
            decreases queue@.len(),
        {
            let ghost waiting = queue@;
            if let Some(request) = queue.pop_front() {
                match request {
                    ModeRequest::SetMode(device_mode) => {
                        self.handle_mode_command(device_mode, None, now);
                    },
                    ModeRequest::ReadMode => self.report_mode_to_parent(),
                }
                assert(queue@ =~= waiting.drop_first());
            }
        }
    }

    /// Queues telemetry. It responds to the telecommand `tc_id`, if there is one.
    pub fn send_telemetry(&mut self, tc_id: Option<CcsdsPacketIdAndPsc>, response: Response)
        ensures
            final(self)@ == old(self)@.with_tm(tc_id, response),
    {
        self.tm_queue.push((tc_id, response));
    }

    /// Executes a housekeeping request.
    pub fn handle_hk_request(
        &mut self,
        tc_id: Option<CcsdsPacketIdAndPsc>,
        hk_request: &HkRequest,
    )
        ensures
            final(self)@ == old(self)@.hk_requested(tc_id, *hk_request),
    {
        match hk_request.req_type {
            HkRequestType::OneShot => {
                self.generate_hk(tc_id);
            },
            req_type => {
                self.hk_helper.configure(req_type);
            },
        }
    }

    /// Sends the sensor data.
    pub fn generate_hk(&mut self, opt_tc_id: Option<CcsdsPacketIdAndPsc>)
        ensures
            final(self)@ == old(self)@.hk_generated(opt_tc_id),
    {
        let mgm_snapshot = self.mgm_set;
        self.send_telemetry(opt_tc_id, Response::Hk(HkResponse::MgmData(mgm_snapshot)));
    }

    /// Reads the sensor values. A simulated device is asked for them first.
    pub fn poll_sensor(&mut self)
        requires
            old(self)@.inv(),
            old(self)@.spi.ready(),
        ensures
            exists|now: nat| final(self)@ == #[trigger] old(self)@.sensor_polled(now),
            final(self)@.inv(),
    {
        let now = self.clock.now();
        self.poll_sensor_at(now);
        assert(self@ == old(self)@.sensor_polled(now.nanos as nat));
    }

    /// [Self::poll_sensor] at the time `now`.
    pub fn poll_sensor_at(&mut self, now: Instant)
        requires
            old(self)@.inv(),
            old(self)@.spi.ready(),
        ensures
            final(self)@ == old(self)@.sensor_polled(now.nanos as nat),
            final(self)@.inv(),
    {
        self.spi_com.request();
        self.read_sensor(now);
    }

    /// Reads the sensor values from a device which was already asked for them.
    fn read_sensor(&mut self, now: Instant)
        requires
            old(self)@.inv(),
            old(self)@.spi.ready(),
        ensures
            final(self)@ == old(self)@.polled(now.nanos as nat),
            final(self)@.inv(),
    {
        // Communicate with the device. This is actually how to read the data from the LIS3 device
        // SPI interface.
        self.spi_com.transfer(&mut self.buffers.rx_buf);
        let rx_buf = &self.buffers.rx_buf;
        let raw = sim_mgm::RawValues {
            x: bytes::i16_from_bytes(rx_buf[X_LOWBYTE_IDX + 1], rx_buf[X_LOWBYTE_IDX]),
            y: bytes::i16_from_bytes(rx_buf[Y_LOWBYTE_IDX + 1], rx_buf[Y_LOWBYTE_IDX]),
            z: bytes::i16_from_bytes(rx_buf[Z_LOWBYTE_IDX + 1], rx_buf[Z_LOWBYTE_IDX]),
        };
        // A stuck-high SPI bus (undriven MISO) reads back as all-1s on every register,
        // regardless of what was actually requested.
        // If our sensor was broken, this is what we would probably see.
        // An all zeroes reading is ignored for now. the sensor could theoretically return this.
        // In a production app, we also need to check whether the sensor data never varies, which is
        // also a fault. We ignore this in this example because the handler is already complex
        // enough.
        if raw.x == -1 && raw.y == -1 && raw.z == -1 {
            self.register_spi_fault(now);
            return;
        }
        // Successful readout, so we can decrement the counter.
        self.fdir.register_success_at(now);
        self.mgm_set = SensorData { valid: true, raw };
    }

    /// Registers one SPI fault with the FDIR, invalidating the current sensor set.
    fn register_spi_fault(&mut self, now: Instant)
        requires
            old(self)@.inv(),
        ensures
            final(self)@ == old(self)@.spi_fault_registered(now.nanos as nat),
            final(self)@.inv(),
    {
        self.mgm_set.valid = false;
        self.fdir.register_fault_at(&mut self.switch_and_mode_helper, now);
        self.handle_fdir_events();
    }

    fn handle_fdir_events(&mut self)
        ensures
            final(self)@ == old(self)@.fdir_events_sent(),
            old(self)@.inv() ==> final(self)@.inv(),
    {
        let mut queue = self.fdir.take_events();
        while queue.len() > 0
            invariant
                self@.events_sent(queue@) == old(self)@.fdir_events_sent(),
                old(self)@.inv() ==> self@.inv(),
            decreases queue@.len(),
        {
            let ghost before = self@;
            let ghost waiting = queue@;
            if let Some(event) = queue.pop_front() {
                let event = match event {
                    FdirEvent::FaultThresholdExceeded => Event::SpiFaultThresholdExceeded,
                    FdirEvent::Recovery(recovery_event) => {
                        // The device is power cycled or switched off.
                        if recovery_event == RecoveryEvent::Started || recovery_event
                            == RecoveryEvent::ThresholdExceeded {
                            self.mgm_set.valid = false;
                        }
                        Event::Recovery(recovery_event)
                    },
                };
                self.send_event(event);
                proof {
                    assert(queue@ =~= waiting.drop_first());
                    before.lemma_first_event_sent(waiting);
                }
            }
        }
        proof {
            assert(self@.events_sent(queue@) =~= self@);
        }
    }

    fn handle_mode_command(
        &mut self,
        target_mode: DeviceMode,
        tc_commander: Option<CcsdsPacketIdAndPsc>,
        now: Instant,
    )
        ensures
            final(self)@ == old(self)@.mode_commanded(target_mode, tc_commander, now.nanos as nat),
            old(self)@.inv() ==> final(self)@.inv(),
    {
        self.fdir.handle_mode_command(&self.switch_and_mode_helper);
        self.start_transition(target_mode, tc_commander, now);
    }

    fn send_event(&mut self, event: Event)
        ensures
            final(self)@ == old(self)@.with_event(event),
    {
        self.event_queue.push((self.id.component_id(), event));
    }

    fn start_transition(
        &mut self,
        target_mode: DeviceMode,
        tc_commander: Option<CcsdsPacketIdAndPsc>,
        now: Instant,
    )
        ensures
            final(self)@ == (MgmModel {
                device: SupervisedModel {
                    modes: old(self)@.device.modes.transition_started(
                        target_mode,
                        tc_commander,
                        now.nanos as nat,
                    ),
                    ..old(self)@.device
                },
                set: SensorData {
                    valid: old(self)@.set.valid && target_mode != DeviceMode::Off,
                    ..old(self)@.set
                },
                ..old(self)@
            }),
    {
        if target_mode == DeviceMode::Off {
            self.mgm_set.valid = false;
        }
        self.switch_and_mode_helper.start_transition_at(target_mode, tc_commander, now);
    }

    /// Should be called to complete a mode transition which failed.
    fn handle_mode_transition_failure(&mut self, tc_commander: Option<CcsdsPacketIdAndPsc>)
        ensures
            final(self)@ == old(self)@.mode_failed(tc_commander),
    {
        if tc_commander.is_some() {
            self.send_telemetry(tc_commander, Response::Mode(ModeResponse::SetModeTimeout));
        }
        self.mode_leaf_helper.reports.push(ModeResponse::SetModeTimeout);
    }

    /// Should be called to complete a mode transition successfully.
    fn handle_mode_reached(&mut self, tc_commander: Option<CcsdsPacketIdAndPsc>)
        ensures
            final(self)@ == old(self)@.mode_reached(tc_commander),
    {
        self.announce_mode();
        if let Some(requestor) = tc_commander {
            self.send_mode_tm(requestor);
        }
        // Inform our parent about mode changes.
        self.report_mode_to_parent();
    }

    fn announce_mode(&mut self)
        ensures
            final(self)@ == old(self)@.with_event(
                Event::ModeChanged(old(self)@.device.modes.current),
            ),
    {
        let mode = self.mode();
        self.send_event(Event::ModeChanged(mode));
    }

    fn report_mode_to_parent(&mut self)
        ensures
            final(self)@ == old(self)@.mode_reported(),
    {
        let mode = self.switch_and_mode_helper.reported_mode();
        self.mode_leaf_helper.reports.push(ModeResponse::Mode(mode));
    }

    fn send_mode_tm(&mut self, requestor: CcsdsPacketIdAndPsc)
        ensures
            final(self)@ == old(self)@.with_tm(Some(requestor), Response::Success),
    {
        self.send_telemetry(Some(requestor), Response::Success);
    }
}

} // verus!
