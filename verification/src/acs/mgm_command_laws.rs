//! Laws on the commands, the telemetry and the events of the magnetometer handler.

use vstd::prelude::*;

use crate::acs::mgm::{
    raw_values, registers_read, sensor_data_request, MgmId, MgmModel, SpiModel,
};
use crate::acs::mgm_laws::{
    law_dummy_values_arrive, law_sim_values_arrive, law_test_values_arrive,
};
use crate::acs::Telecommand;
use crate::device_fdir::{FdirEvent, SupervisedModel};
use crate::device_fdir_laws::law_power_cycle_is_retried;
use crate::device_mode::{lemma_device_mode_off, ModeTransitionEvent};
use crate::eps::PowerModel;
use crate::fdir::RecoveryEvent;
use crate::health::HealthState;
use crate::minisim::acs::mgm as sim_mgm;
use crate::minisim::{SimReply, SimRequest};
use crate::time::Clock;
use crate::types::acs::mgm::request::{HealthRequest, HkRequest, ModeRequest, Request};
use crate::types::acs::mgm::response::{HkResponse, ModeResponse, Response};
use crate::types::acs::mgm::{Event, SensorData};
use crate::types::ccsds::CcsdsPacketIdAndPsc;
use crate::types::pcdu::{SwitchId, SwitchRequest, SwitchStateBinary};
use crate::types::{ComponentId, DeviceMode, HkRequestType};

verus! {

/// Telemetry with the sensor data, axis by axis.
pub open spec fn shows_data(
    tm: (Option<CcsdsPacketIdAndPsc>, Response),
    valid: bool,
    x: i16,
    y: i16,
    z: i16,
) -> bool {
    match tm.1 {
        Response::Hk(HkResponse::MgmData(data)) => {
            &&& data.valid == valid
            &&& data.raw.x == x
            &&& data.raw.y == y
            &&& data.raw.z == z
        },
        _ => false,
    }
}

/// A response to a telecommand with the given header.
pub open spec fn answers(
    tm: (Option<CcsdsPacketIdAndPsc>, Response),
    tc: Telecommand<Request>,
) -> bool {
    match tm.0 {
        Some(id) => id.packet_id == tc.sp_header.packet_id && id.psc == tc.sp_header.psc,
        None => false,
    }
}

/// A one shot HK request is answered with exactly one telemetry entry, which shows the sensor data
/// axis by axis. Nothing else changes.
pub proof fn law_one_shot_shows_sensor_data(
    handler: MgmModel,
    tc: Telecommand<Request>,
    request: HkRequest,
    now: nat,
)
    requires
        tc.request == Some(Request::Hk(request)),
        request.req_type == HkRequestType::OneShot,
    ensures
        ({
            let after = handler.tc_handled(tc, now);
            let raw = handler.set.raw;
            &&& after.tms.len() == handler.tms.len() + 1
            &&& after.tms.drop_last() == handler.tms
            &&& answers(after.tms.last(), tc)
            &&& shows_data(after.tms.last(), handler.set.valid, raw.x, raw.y, raw.z)
            &&& (MgmModel { tms: handler.tms, ..after }) == handler
        }),
{
    assert(handler.tc_handled(tc, now).tms.drop_last() =~= handler.tms);
}

/// Periodic HK data which is due is exactly one telemetry entry without a telecommand, which shows
/// the sensor data axis by axis. Otherwise, there is none. Besides, only the time of the generation
/// is recorded.
pub proof fn law_periodic_hk_shows_sensor_data(handler: MgmModel, now: nat)
    ensures
        ({
            let after = handler.hk_checked(now);
            let raw = handler.set.raw;
            &&& handler.hk.due(now) ==> {
                &&& after.tms.len() == handler.tms.len() + 1
                &&& after.tms.drop_last() == handler.tms
                &&& after.tms.last().0 is None
                &&& shows_data(after.tms.last(), handler.set.valid, raw.x, raw.y, raw.z)
                &&& after.hk.last == Some(now)
            }
            &&& !handler.hk.due(now) ==> after == handler
            &&& (MgmModel { tms: handler.tms, hk: handler.hk, ..after }) == handler
        }),
{
    if handler.hk.due(now) {
        assert(handler.hk_checked(now).tms.drop_last() =~= handler.tms);
    }
}

/// The values which the next transfer with the device delivers.
pub open spec fn delivers(handler: MgmModel, values: sim_mgm::RawValues) -> bool {
    match handler.spi {
        SpiModel::Dummy(dummy) => dummy == values,
        SpiModel::Test { next, .. } => next == values,
        SpiModel::Sim { id, reply, .. } => match reply {
            Some(SimReply::Mgm { id: reply_id, reply }) => {
                &&& reply.raw == values
                &&& match id {
                    MgmId::_0 => reply_id == sim_mgm::Id::Mgm0,
                    MgmId::_1 => reply_id == sim_mgm::Id::Mgm1,
                }
            },
            _ => false,
        },
    }
}

/// What the device delivers is what ground gets: HK data which is due in the cycle, and HK data
/// which is requested later, shows the values of the last poll axis by axis and marked as valid.
pub proof fn law_measurement_reaches_ground(
    handler: MgmModel,
    values: sim_mgm::RawValues,
    tc: Telecommand<Request>,
    request: HkRequest,
    now: nat,
    later: nat,
)
    requires
        handler.inv(),
        handler.device.modes.current == DeviceMode::Normal,
        handler.device.modes.target is None,
        delivers(handler, values),
        values.x != -1 || values.y != -1 || values.z != -1,
        tc.request == Some(Request::Hk(request)),
        request.req_type == HkRequestType::OneShot,
    ensures
        ({
            let after = handler.cycle_finished(now);
            let requested = after.tc_handled(tc, later);
            &&& handler.hk.due(now) ==> {
                &&& after.tms.len() == handler.tms.len() + 1
                &&& after.tms.last().0 is None
                &&& shows_data(after.tms.last(), true, values.x, values.y, values.z)
            }
            &&& !handler.hk.due(now) ==> after.tms == handler.tms
            &&& shows_data(requested.tms.last(), true, values.x, values.y, values.z)
        }),
{
    match handler.spi {
        SpiModel::Dummy(dummy) => law_dummy_values_arrive(handler, dummy, now),
        SpiModel::Test { call_count, next } => law_test_values_arrive(
            handler,
            call_count,
            next,
            now,
        ),
        SpiModel::Sim { id, reply, .. } => match reply {
            Some(SimReply::Mgm { id: reply_id, reply }) => law_sim_values_arrive(
                handler,
                id,
                reply_id,
                reply,
            ),
            _ => {},
        },
    }
    let polled = handler.polled(now);
    assert(polled.set.raw == values);
    law_periodic_hk_shows_sensor_data(polled, now);
    law_one_shot_shows_sensor_data(handler.cycle_finished(now), tc, request, later);
}

/// A poll is only rejected if all axes read -1. Then the sensor data is marked as invalid and its
/// values are kept, and a fault which is still tolerated is counted and does nothing else.
pub proof fn law_only_all_ones_are_rejected(
    handler: MgmModel,
    values: sim_mgm::RawValues,
    now: nat,
)
    requires
        handler.inv(),
        delivers(handler, values),
    ensures
        ({
            let after = handler.polled(now);
            let before = handler.device.fdir;
            let stuck = values.x == -1 && values.y == -1 && values.z == -1;
            &&& handler.bus_is_stuck() == stuck
            &&& !stuck ==> {
                &&& after.set.valid
                &&& after.set.raw.x == values.x
                &&& after.set.raw.y == values.y
                &&& after.set.raw.z == values.z
                &&& after.device.modes == handler.device.modes
                &&& after.device.fdir.recovery == before.recovery
                &&& after.events == handler.events
            }
            &&& stuck ==> !after.set.valid && after.set.raw == handler.set.raw
            &&& stuck && before.counter.fault_count < before.counter.failure_threshold
                && before.events.len() == 0 ==> {
                &&& after.device.fdir.counter.fault_count == before.counter.fault_count + 1
                &&& after.device.fdir.recovery == before.recovery
                &&& after.device.modes == handler.device.modes
                &&& after.events == handler.events
            }
            &&& after.tms == handler.tms
            &&& after.mode_reports == handler.mode_reports
            &&& after.hk == handler.hk
            &&& after.id == handler.id
        }),
{
    match handler.spi {
        SpiModel::Dummy(dummy) => law_dummy_values_arrive(handler, dummy, now),
        SpiModel::Test { call_count, next } => law_test_values_arrive(
            handler,
            call_count,
            next,
            now,
        ),
        SpiModel::Sim { id, reply, .. } => match reply {
            Some(SimReply::Mgm { id: reply_id, reply }) => law_sim_values_arrive(
                handler,
                id,
                reply_id,
                reply,
            ),
            _ => {},
        },
    }
}

/// Successful polls forget faults: one once the decrement interval passed, none before.
pub proof fn law_successful_poll_forgets_faults(
    handler: MgmModel,
    values: sim_mgm::RawValues,
    last: nat,
    now: nat,
)
    requires
        handler.inv(),
        delivers(handler, values),
        values.x != -1 || values.y != -1 || values.z != -1,
        handler.device.fdir.counter.last_decrement == Some(last),
        handler.device.fdir.counter.decrement_after > 0,
    ensures
        ({
            let before = handler.device.fdir.counter;
            handler.polled(now).device.fdir.counter.fault_count == (if before.fault_count > 0
                && last + before.decrement_after <= now {
                before.fault_count - 1
            } else {
                before.fault_count as int
            })
        }),
{
    law_only_all_ones_are_rejected(handler, values, now);
}

/// Any other HK request only changes the HK settings: there is no telemetry.
pub proof fn law_hk_settings_are_commanded(
    handler: MgmModel,
    tc: Telecommand<Request>,
    request: HkRequest,
    now: nat,
)
    requires
        tc.request == Some(Request::Hk(request)),
        request.req_type != HkRequestType::OneShot,
    ensures
        ({
            let after = handler.tc_handled(tc, now);
            &&& (MgmModel { hk: handler.hk, ..after }) == handler
            &&& after.hk.last == handler.hk.last
            &&& after.hk.enabled == match request.req_type {
                HkRequestType::EnablePeriodic(_) => true,
                HkRequestType::DisablePeriodic => false,
                _ => handler.hk.enabled,
            }
            &&& after.hk.frequency == match request.req_type {
                HkRequestType::EnablePeriodic(Some(interval)) => interval.nanos as nat,
                HkRequestType::ModifyInterval(interval) => interval.nanos as nat,
                _ => handler.hk.frequency,
            }
        }),
{
}

/// A commanded health is stored for the component of the device alone, and confirmed once. Nothing
/// else changes.
pub proof fn law_health_is_commanded(
    handler: MgmModel,
    tc: Telecommand<Request>,
    health: HealthState,
    now: nat,
)
    requires
        tc.request == Some(Request::Health(HealthRequest::SetHealth(health))),
    ensures
        ({
            let after = handler.tc_handled(tc, now);
            let recovery = handler.device.fdir.recovery;
            &&& after.tms.drop_last() == handler.tms
            &&& after.tms.len() == handler.tms.len() + 1
            &&& answers(after.tms.last(), tc)
            &&& after.tms.last().1 == Response::Success
            &&& after.device.fdir.recovery.entries == recovery.entries.insert(recovery.id, health)
            &&& after.device.fdir.recovery.counter == recovery.counter
            &&& after.device.fdir.counter == handler.device.fdir.counter
            &&& after.device.fdir.events == handler.device.fdir.events
            &&& after.device.modes == handler.device.modes
            &&& (MgmModel { tms: handler.tms, device: handler.device, ..after }) == handler
        }),
{
    assert(handler.tc_handled(tc, now).tms.drop_last() =~= handler.tms);
}

/// A commanded mode becomes the target of a transition which starts now, on behalf of the
/// telecommand. It is not answered before the transition ends.
pub proof fn law_mode_is_commanded(
    handler: MgmModel,
    tc: Telecommand<Request>,
    mode: DeviceMode,
    now: nat,
)
    requires
        tc.request == Some(Request::Mode(ModeRequest::SetMode(mode))),
    ensures
        ({
            let after = handler.tc_handled(tc, now);
            let modes = after.device.modes;
            &&& modes.target == Some(mode)
            &&& modes.commander == Some(
                CcsdsPacketIdAndPsc {
                    packet_id: tc.sp_header.packet_id,
                    psc: tc.sp_header.psc,
                },
            )
            &&& modes.started == Some(now)
            &&& modes.cycle is Idle
            &&& modes.current == handler.device.modes.current
            &&& modes.power == handler.device.modes.power
            &&& after.set.valid == (handler.set.valid && mode != DeviceMode::Off)
            &&& after.set.raw == handler.set.raw
            &&& handler.device.modes.cycle is Idle ==> after.device.fdir == handler.device.fdir
            &&& (MgmModel { set: handler.set, device: handler.device, ..after }) == handler
        }),
{
}

/// A request to read the mode is answered with it, once. Nothing else changes.
pub proof fn law_mode_is_read(handler: MgmModel, tc: Telecommand<Request>, now: nat)
    requires
        tc.request == Some(Request::Mode(ModeRequest::ReadMode)),
        handler.device.modes.cycle is Idle,
    ensures
        ({
            let after = handler.tc_handled(tc, now);
            &&& after.tms.drop_last() == handler.tms
            &&& after.tms.len() == handler.tms.len() + 1
            &&& answers(after.tms.last(), tc)
            &&& after.tms.last().1 == Response::Mode(
                ModeResponse::Mode(handler.device.modes.current),
            )
            &&& (MgmModel { tms: handler.tms, ..after }) == handler
        }),
{
    assert(handler.tc_handled(tc, now).tms.drop_last() =~= handler.tms);
}

/// The parent commands and reads modes like ground does, but gets reports and no telemetry.
pub proof fn law_parent_commands_modes(handler: MgmModel, mode: DeviceMode, now: nat)
    ensures
        ({
            let after = handler.mode_request_handled(ModeRequest::SetMode(mode), now);
            let modes = after.device.modes;
            &&& modes.target == Some(mode)
            &&& modes.commander is None
            &&& modes.started == Some(now)
            &&& modes.cycle is Idle
            &&& modes.current == handler.device.modes.current
            &&& modes.power == handler.device.modes.power
            &&& after.set.valid == (handler.set.valid && mode != DeviceMode::Off)
            &&& after.set.raw == handler.set.raw
            &&& (MgmModel { set: handler.set, device: handler.device, ..after }) == handler
        }),
        handler.device.modes.cycle is Idle ==> handler.mode_request_handled(
            ModeRequest::ReadMode,
            now,
        ) == (MgmModel {
            mode_reports: handler.mode_reports.push(
                ModeResponse::Mode(handler.device.modes.current),
            ),
            ..handler
        }),
{
}

/// Telecommands are executed in their order, the first one first.
pub proof fn law_telecommands_are_executed_in_order(
    handler: MgmModel,
    tc: Telecommand<Request>,
    tcs: Seq<Telecommand<Request>>,
    now: nat,
)
    ensures
        handler.after_tcs(seq![tc] + tcs, now) == handler.tc_handled(tc, now).after_tcs(tcs, now),
        handler.after_tcs(Seq::empty(), now) == handler,
{
    assert((seq![tc] + tcs).drop_first() =~= tcs);
}

/// Mode requests of the parent are executed in their order, the first one first.
pub proof fn law_mode_requests_are_executed_in_order(
    handler: MgmModel,
    request: ModeRequest,
    requests: Seq<ModeRequest>,
    now: nat,
)
    ensures
        handler.after_mode_requests(seq![request] + requests, now) == handler.mode_request_handled(
            request,
            now,
        ).after_mode_requests(requests, now),
        handler.after_mode_requests(Seq::empty(), now) == handler,
{
    assert((seq![request] + requests).drop_first() =~= requests);
}

/// No telecommand and no mode request stays in its queue. Answers come behind what was sent before,
/// telecommands are answered to ground and mode requests to the parent, and neither is an event.
pub proof fn law_commands_leave_their_queues(handler: MgmModel, now: nat)
    ensures
        handler.tcs_handled(now).tcs.len() == 0,
        handler.mode_requests_handled(now).mode_requests.len() == 0,
        extends(handler.tcs_handled(now).tms, handler.tms),
        handler.tcs_handled(now).mode_reports == handler.mode_reports,
        handler.tcs_handled(now).events == handler.events,
        extends(handler.mode_requests_handled(now).mode_reports, handler.mode_reports),
        handler.mode_requests_handled(now).tms == handler.tms,
        handler.mode_requests_handled(now).events == handler.events,
{
    lemma_tcs_frame(MgmModel { tcs: Seq::empty(), ..handler }, handler.tcs, now);
    lemma_mode_requests_frame(
        MgmModel { mode_requests: Seq::empty(), ..handler },
        handler.mode_requests,
        now,
    );
}

/// Whether one sequence starts with another one.
pub open spec fn extends<T>(longer: Seq<T>, shorter: Seq<T>) -> bool {
    longer.len() >= shorter.len() && longer.take(shorter.len() as int) == shorter
}

/// What telecommands leave alone.
proof fn lemma_tcs_frame(handler: MgmModel, tcs: Seq<Telecommand<Request>>, now: nat)
    ensures
        ({
            let after = handler.after_tcs(tcs, now);
            &&& after.id == handler.id
            &&& after.clock == handler.clock
            &&& after.tcs == handler.tcs
            &&& after.mode_requests == handler.mode_requests
            &&& after.mode_reports == handler.mode_reports
            &&& after.events == handler.events
            &&& after.device.fdir.events == handler.device.fdir.events
            &&& extends(after.tms, handler.tms)
        }),
    decreases tcs.len(),
{
    if tcs.len() > 0 {
        let next = handler.tc_handled(tcs[0], now);
        lemma_tcs_frame(next, tcs.drop_first(), now);
        assert(next.tms.take(handler.tms.len() as int) =~= handler.tms);
        let after = handler.after_tcs(tcs, now);
        assert(after.tms.take(handler.tms.len() as int) =~= next.tms.take(
            handler.tms.len() as int,
        )) by {
            assert forall|i: int| 0 <= i < handler.tms.len() implies after.tms[i]
                == next.tms[i] by {
                assert(after.tms.take(next.tms.len() as int)[i] == next.tms[i]);
            }
        }
    } else {
        assert(handler.tms.take(handler.tms.len() as int) =~= handler.tms);
    }
}

/// What mode requests leave alone.
proof fn lemma_mode_requests_frame(handler: MgmModel, requests: Seq<ModeRequest>, now: nat)
    ensures
        ({
            let after = handler.after_mode_requests(requests, now);
            &&& after.id == handler.id
            &&& after.clock == handler.clock
            &&& after.tcs == handler.tcs
            &&& after.tms == handler.tms
            &&& after.mode_requests == handler.mode_requests
            &&& after.events == handler.events
            &&& after.device.fdir.events == handler.device.fdir.events
            &&& extends(after.mode_reports, handler.mode_reports)
        }),
    decreases requests.len(),
{
    if requests.len() > 0 {
        let next = handler.mode_request_handled(requests[0], now);
        lemma_mode_requests_frame(next, requests.drop_first(), now);
        assert(next.mode_reports.take(handler.mode_reports.len() as int)
            =~= handler.mode_reports);
        let after = handler.after_mode_requests(requests, now);
        assert(after.mode_reports.take(handler.mode_reports.len() as int)
            =~= next.mode_reports.take(handler.mode_reports.len() as int)) by {
            assert forall|i: int| 0 <= i < handler.mode_reports.len() implies after.mode_reports[i]
                == next.mode_reports[i] by {
                assert(after.mode_reports.take(next.mode_reports.len() as int)[i]
                    == next.mode_reports[i]);
            }
        }
    } else {
        assert(handler.mode_reports.take(handler.mode_reports.len() as int)
            =~= handler.mode_reports);
    }
}

/// FDIR events are sent in their order by the component of the device, and leave the queue. The
/// sensor data loses its validity exactly if a recovery started or if there were too many.
pub proof fn law_fdir_events_are_sent(handler: MgmModel, i: int)
    requires
        0 <= i < handler.device.fdir.events.len(),
    ensures
        ({
            let after = handler.fdir_events_sent();
            let queued = handler.device.fdir.events;
            let sent = after.events[handler.events.len() + i];
            &&& after.events.len() == handler.events.len() + queued.len()
            &&& after.events.take(handler.events.len() as int) == handler.events
            &&& sent.0 == match handler.id {
                MgmId::_0 => ComponentId::AcsMgm0,
                MgmId::_1 => ComponentId::AcsMgm1,
            }
            &&& queued[i] == FdirEvent::FaultThresholdExceeded ==> sent.1
                == Event::SpiFaultThresholdExceeded
            &&& queued[i] matches FdirEvent::Recovery(event) ==> sent.1 == Event::Recovery(event)
            &&& after.device.fdir.events.len() == 0
            &&& after.device.fdir.recovery == handler.device.fdir.recovery
            &&& after.device.fdir.counter == handler.device.fdir.counter
            &&& after.device.modes == handler.device.modes
            &&& after.set.raw == handler.set.raw
            &&& after.set.valid == (handler.set.valid && !queued.contains(
                FdirEvent::Recovery(RecoveryEvent::Started),
            ) && !queued.contains(FdirEvent::Recovery(RecoveryEvent::ThresholdExceeded)))
            &&& after.tms == handler.tms
            &&& after.mode_reports == handler.mode_reports
        }),
{
    let after = handler.fdir_events_sent();
    assert(after.events.take(handler.events.len() as int) =~= handler.events);
}

/// A finished transition without a commander is announced and reported, but sends no telemetry.
pub proof fn law_parent_gets_reports_only(handler: MgmModel, now: nat)
    requires
        handler.device.modes.commander is None,
    ensures
        ({
            let after = handler.mode_handled(now);
            let sender = match handler.id {
                MgmId::_0 => ComponentId::AcsMgm0,
                MgmId::_1 => ComponentId::AcsMgm1,
            };
            &&& after.tms == handler.tms
            &&& handler.device.modes.handled_event(now) matches Some(
                ModeTransitionEvent::Reached(_),
            ) ==> {
                &&& after.events == handler.events.push(
                    (sender, Event::ModeChanged(after.device.modes.current)),
                )
                &&& after.device.modes.cycle is Idle ==> after.mode_reports
                    == handler.mode_reports.push(ModeResponse::Mode(after.device.modes.current))
                &&& after.device.fdir == handler.device.fdir
            }
            &&& handler.device.modes.handled_event(now) matches Some(
                ModeTransitionEvent::Failed(_),
            ) ==> {
                &&& after.events == handler.events
                &&& after.mode_reports == handler.mode_reports.push(ModeResponse::SetModeTimeout)
                &&& after.device.fdir == handler.device.fdir
            }
            &&& handler.device.modes.handled_event(now) is None ==> {
                &&& after.events == handler.events
                &&& after.mode_reports == handler.mode_reports
                &&& after.device.fdir == handler.device.fdir
            }
            &&& after.device.modes.current == handler.device.modes.handled(now).current
                || after.device.modes.power_cycle_active()
        }),
{
}

/// A completed power cycle makes the device healthy and its fault counter empty. It is announced as
/// an event, but neither ground nor the parent is told a mode.
pub proof fn law_power_cycle_done_is_announced(handler: MgmModel, now: nat)
    requires
        handler.device.modes.handled_event(now) == Some(
            ModeTransitionEvent::<DeviceMode>::PowerCycleDone,
        ),
        handler.device.fdir.recovery.health() == Some(HealthState::NeedsRecovery),
        handler.device.fdir.events.len() == 0,
    ensures
        ({
            let after = handler.mode_handled(now);
            let recovery = after.device.fdir.recovery;
            let sender = match handler.id {
                MgmId::_0 => ComponentId::AcsMgm0,
                MgmId::_1 => ComponentId::AcsMgm1,
            };
            &&& recovery.entries == handler.device.fdir.recovery.entries.insert(
                handler.device.fdir.recovery.id,
                HealthState::Healthy,
            )
            &&& after.device.fdir.counter.fault_count == 0
            &&& after.device.fdir.counter.last_decrement is None
            &&& after.events == handler.events.push((sender, Event::Recovery(RecoveryEvent::Done)))
            &&& after.tms == handler.tms
            &&& after.mode_reports == handler.mode_reports
            &&& after.set == handler.set
        }),
{
    let done = handler.device.fdir.after_power_cycle_done();
    assert(done.events =~= seq![FdirEvent::Recovery(RecoveryEvent::Done)]);
    let sender = handler.id.spec_component_id();
    assert(handler.mode_handled(now).events =~= handler.events.push(
        (sender, Event::Recovery(RecoveryEvent::Done)),
    ));
}

/// A recovery which is needed starts in the turn of the FDIR, and commands the switch of the device
/// off in the same cycle. The device is not polled anymore, and its data is not valid.
pub proof fn law_recovery_starts_at_once(handler: MgmModel, now: nat)
    requires
        handler.tcs.len() == 0,
        handler.mode_requests.len() == 0,
        handler.device.fdir.events.len() == 0,
        handler.device.fdir.recovery.health() == Some(HealthState::NeedsRecovery),
        handler.device.modes.target is None,
        handler.device.modes.cycle is Idle,
        handler.device.modes.current != DeviceMode::Off,
        handler.device.modes.timeout > 0,
        handler.device.modes.power.is_switch_on(handler.device.modes.switch_id),
    ensures
        ({
            let after = handler.cycled(now);
            let modes = handler.device.modes;
            let sender = match handler.id {
                MgmId::_0 => ComponentId::AcsMgm0,
                MgmId::_1 => ComponentId::AcsMgm1,
            };
            &&& after.device.modes.power.requests == modes.power.requests.push(
                SwitchRequest {
                    switch_id: modes.switch_id,
                    target_state: SwitchStateBinary::Off,
                },
            )
            &&& after.device.modes.target == Some(DeviceMode::Off)
            &&& after.device.modes.reported_mode() == modes.current
            &&& after.device.modes.off_duration == handler.device.fdir.off_duration
            &&& after.events == handler.events.push(
                (sender, Event::Recovery(RecoveryEvent::Started)),
            )
            &&& !after.set.valid
            &&& after.spi == handler.spi
        }),
{
    lemma_device_mode_off();
    let cycled = handler.device.cycled(now);
    assert(cycled.fdir.events =~= seq![FdirEvent::Recovery(RecoveryEvent::Started)]);
    assert(cycled.fdir.events[0] == FdirEvent::Recovery(RecoveryEvent::Started));
    let turned = handler.fdir_cycled(now);
    assert(!turned.set.valid);
    let sender = handler.id.spec_component_id();
    assert(turned.events =~= handler.events.push(
        (sender, Event::Recovery(RecoveryEvent::Started)),
    ));
    assert(handler.tcs =~= Seq::empty());
    assert(handler.mode_requests =~= Seq::empty());
    assert(handler.tcs_handled(now) == handler);
    assert(handler.mode_requests_handled(now) == handler);
    assert(turned.device.modes.handled_event(now) is None);
    let driven = turned.mode_handled(now);
    assert(handler.cycle_prepared(now) == driven);
    assert(!driven.poll_due());
    assert(handler.cycled(now) == driven.hk_checked(now));
}

/// A device which is being switched off is not polled, and its data does not become valid again.
proof fn lemma_switching_off_is_not_polled(handler: MgmModel, now: nat)
    requires
        handler.device.modes.target == Some(DeviceMode::Off),
        handler.device.modes.started == Some(now),
        handler.device.modes.timeout > 0,
        handler.device.modes.cycle is Idle,
    ensures
        ({
            let after = handler.mode_handled(now);
            &&& !after.poll_due()
            &&& after.spi == handler.spi
            &&& after.rx == handler.rx
            &&& after.set == handler.set
        }),
{
    lemma_device_mode_off();
}

/// The turn of the FDIR leaves a commanded transition alone.
proof fn lemma_fdir_respects_commands(handler: MgmModel, now: nat)
    requires
        handler.device.modes.target is Some,
    ensures
        ({
            let after = handler.fdir_cycled(now);
            &&& after.device.modes == handler.device.modes
            &&& after.spi == handler.spi
            &&& after.rx == handler.rx
            &&& after.tms == handler.tms
            &&& after.hk == handler.hk
            &&& !handler.set.valid ==> !after.set.valid
        }),
{
}

/// Commands take effect before the device is polled: commanded off in a cycle, it is not polled
/// anymore in that cycle.
pub proof fn law_device_commanded_off_is_not_polled(
    handler: MgmModel,
    tc: Telecommand<Request>,
    now: nat,
)
    requires
        handler.tcs == seq![tc],
        tc.request == Some(Request::Mode(ModeRequest::SetMode(DeviceMode::Off))),
        handler.mode_requests.len() == 0,
        handler.device.modes.timeout > 0,
    ensures
        handler.cycled(now).spi == handler.spi,
        handler.cycled(now).rx == handler.rx,
        !handler.cycled(now).set.valid,
{
    let started = MgmModel { tcs: Seq::empty(), ..handler }.tc_handled(tc, now);
    assert(seq![tc].drop_first() =~= Seq::empty());
    reveal_with_fuel(MgmModel::after_tcs, 2);
    assert(handler.tcs_handled(now) == started);
    assert(started.mode_requests =~= Seq::empty());
    assert(started.mode_requests_handled(now) == started);
    lemma_fdir_respects_commands(started, now);
    lemma_switching_off_is_not_polled(started.fdir_cycled(now), now);
}

/// A transition which waits for its switch stays pending in its first cycle.
proof fn lemma_transition_is_pending(handler: MgmModel, target: DeviceMode, now: nat)
    requires
        handler.device.modes.target == Some(target),
        handler.device.modes.started == Some(now),
        handler.device.modes.timeout > 0,
        handler.device.modes.cycle is Idle,
        handler.device.modes.power.is_switch_on(handler.device.modes.switch_id) == (target
            == DeviceMode::Off),
    ensures
        ({
            let after = handler.mode_handled(now);
            &&& after.device.modes.target == Some(target)
            &&& after.device.modes.commander == handler.device.modes.commander
            &&& after.tms == handler.tms
            &&& after.hk == handler.hk
        }),
{
    lemma_device_mode_off();
}

/// In a cycle, the parent has the last word: its mode request replaces what a telecommand of the
/// same cycle asked for.
pub proof fn law_parent_has_the_last_word(
    handler: MgmModel,
    tc: Telecommand<Request>,
    commanded: DeviceMode,
    requested: DeviceMode,
    now: nat,
)
    requires
        handler.tcs == seq![tc],
        tc.request == Some(Request::Mode(ModeRequest::SetMode(commanded))),
        handler.mode_requests == seq![ModeRequest::SetMode(requested)],
        handler.device.modes.power.is_switch_on(handler.device.modes.switch_id) == (requested
            == DeviceMode::Off),
        handler.device.modes.timeout > 0,
    ensures
        handler.cycled(now).device.modes.target == Some(requested),
        handler.cycled(now).device.modes.commander is None,
        handler.cycled(now).tms == handler.tms || handler.hk.due(now),
{
    let started = MgmModel { tcs: Seq::empty(), ..handler }.tc_handled(tc, now);
    let replaced = MgmModel { mode_requests: Seq::empty(), ..started }.mode_request_handled(
        ModeRequest::SetMode(requested),
        now,
    );
    assert(seq![tc].drop_first() =~= Seq::empty());
    assert(seq![ModeRequest::SetMode(requested)].drop_first() =~= Seq::empty());
    assert(handler.tcs_handled(now) == started) by {
        reveal_with_fuel(MgmModel::after_tcs, 2);
    }
    assert(started.mode_requests_handled(now) == replaced) by {
        reveal_with_fuel(MgmModel::after_mode_requests, 2);
    }
    lemma_fdir_respects_commands(replaced, now);
    lemma_transition_is_pending(replaced.fdir_cycled(now), requested, now);
    assert(handler.cycle_prepared(now) == replaced.fdir_cycled(now).mode_handled(now));
}

/// The two magnetometers have components, switches and simulated devices of their own.
pub proof fn law_magnetometers_are_told_apart()
    ensures
        MgmId::_0.spec_component_id() == ComponentId::AcsMgm0,
        MgmId::_1.spec_component_id() == ComponentId::AcsMgm1,
        MgmId::_0.spec_switch_id() == SwitchId::Mgm0,
        MgmId::_1.spec_switch_id() == SwitchId::Mgm1,
        MgmId::_0.spec_sim_id() == sim_mgm::Id::Mgm0,
        MgmId::_1.spec_sim_id() == sim_mgm::Id::Mgm1,
{
}

/// A simulated device is asked for its own sensor data.
pub proof fn law_own_sensor_data_is_requested(id: MgmId)
    ensures
        sensor_data_request(id).request == (SimRequest::Mgm {
            id: match id {
                MgmId::_0 => sim_mgm::Id::Mgm0,
                MgmId::_1 => sim_mgm::Id::Mgm1,
            },
            request: sim_mgm::Request::RequestSensorData,
        }),
        sensor_data_request(id).timestamp.secs == 0,
        sensor_data_request(id).timestamp.subsec_nanos == 0,
{
}

/// The axes are stored from position 9 on, in the order X, Y and Z, with the low byte of each one
/// first. Nothing else of the receive buffer is touched.
pub proof fn law_register_layout(rx: Seq<u8>, x: Seq<u8>, y: Seq<u8>, z: Seq<u8>, i: int)
    requires
        rx.len() == 32,
        x.len() == 2,
        y.len() == 2,
        z.len() == 2,
        0 <= i < 32,
    ensures
        ({
            let read = registers_read(rx, x, y, z);
            let values = raw_values(rx);
            &&& read.len() == 32
            &&& read.subrange(9, 15) == x + y + z
            &&& i < 9 || i >= 15 ==> read[i] == rx[i]
            &&& values.x == rx[10] * 0x100 + rx[9] || values.x == rx[10] * 0x100 + rx[9] - 0x1_0000
            &&& values.y == rx[12] * 0x100 + rx[11] || values.y == rx[12] * 0x100 + rx[11]
                - 0x1_0000
            &&& values.z == rx[14] * 0x100 + rx[13] || values.z == rx[14] * 0x100 + rx[13]
                - 0x1_0000
        }),
{
    assert(registers_read(rx, x, y, z).subrange(9, 15) =~= x + y + z);
}

/// A new handler starts with a switched off and supervised device and empty queues. HK data is
/// disabled, with an interval of 200 milliseconds.
pub proof fn law_new_handler(
    id: MgmId,
    power: PowerModel,
    spi: SpiModel,
    set: SensorData,
    mode_timeout: nat,
    entries: Map<u32, HealthState>,
    clock: Clock,
)
    ensures
        ({
            let handler = MgmModel::fresh(id, power, spi, set, mode_timeout, entries, clock);
            &&& handler.inv()
            &&& handler.id == id
            &&& handler.spi == spi
            &&& handler.set == set
            &&& handler.clock == clock
            &&& handler.tcs.len() == 0
            &&& handler.tms.len() == 0
            &&& handler.mode_requests.len() == 0
            &&& handler.mode_reports.len() == 0
            &&& handler.events.len() == 0
            &&& !handler.hk.enabled
            &&& handler.hk.frequency == 200 * 1_000_000
            &&& handler.hk.last is None
            &&& handler.device.modes.current == DeviceMode::Off
            &&& handler.device.modes.target is None
            &&& handler.device.modes.cycle is Idle
            &&& handler.device.modes.timeout == mode_timeout
            &&& handler.device.modes.power == power
            &&& handler.device.modes.switch_id == match id {
                MgmId::_0 => SwitchId::Mgm0,
                MgmId::_1 => SwitchId::Mgm1,
            }
            &&& handler.device.fdir.counter.failure_threshold == 2
            &&& handler.device.fdir.counter.decrement_after == 30 * 1_000_000_000
            &&& handler.device.fdir.counter.fault_count == 0
            &&& handler.device.fdir.recovery.entries == entries
            &&& handler.device.fdir.recovery.id == match id {
                MgmId::_0 => ComponentId::AcsMgm0.spec_raw(),
                MgmId::_1 => ComponentId::AcsMgm1.spec_raw(),
            }
            &&& handler.device.fdir.name == match id {
                MgmId::_0 => "MGM 0"@,
                MgmId::_1 => "MGM 1"@,
            }
        }),
{
}

/// A failed power cycle is announced and retried with the same mode to restore, as long as there
/// are attempts left. Otherwise, the component is faulty and its device is switched off. Either
/// way, the data is not valid, and neither ground nor the parent is told a mode.
pub proof fn law_failed_power_cycle_is_retried(
    handler: MgmModel,
    restore_mode: DeviceMode,
    now: nat,
)
    requires
        handler.device.modes.handled_event(now) == Some(
            ModeTransitionEvent::<DeviceMode>::PowerCycleFailed { restore_mode },
        ),
        handler.device.fdir.recovery.health() == Some(HealthState::NeedsRecovery),
        handler.device.fdir.events.len() == 0,
    ensures
        ({
            let after = handler.mode_handled(now);
            let recovery = handler.device.fdir.recovery;
            let retried = recovery.counter.fault_count < recovery.counter.failure_threshold;
            let sender = match handler.id {
                MgmId::_0 => ComponentId::AcsMgm0,
                MgmId::_1 => ComponentId::AcsMgm1,
            };
            &&& after.events == handler.events.push(
                (sender, Event::Recovery(RecoveryEvent::Failed)),
            ).push(
                if retried {
                    (sender, Event::Recovery(RecoveryEvent::Started))
                } else {
                    (sender, Event::Recovery(RecoveryEvent::ThresholdExceeded))
                },
            )
            &&& after.device.modes.target == Some(DeviceMode::Off)
            &&& retried ==> {
                &&& after.device.modes.reported_mode() == restore_mode
                &&& after.device.modes.off_duration == handler.device.fdir.off_duration
                &&& after.device.fdir.recovery.health() == Some(HealthState::NeedsRecovery)
            }
            &&& !retried ==> after.device.fdir.recovery.health() == Some(HealthState::Faulty)
            &&& !after.set.valid
            &&& after.tms == handler.tms
            &&& after.mode_reports == handler.mode_reports
        }),
{
    let driven = SupervisedModel { modes: handler.device.modes.handled(now), ..handler.device };
    law_power_cycle_is_retried(driven, restore_mode, now);
    let failed = driven.after_power_cycle_failed(restore_mode, now);
    let retried = driven.fdir.recovery.counter.fault_count
        < driven.fdir.recovery.counter.failure_threshold;
    let second = if retried {
        RecoveryEvent::Started
    } else {
        RecoveryEvent::ThresholdExceeded
    };
    assert(failed.fdir.events =~= seq![
        FdirEvent::Recovery(RecoveryEvent::Failed),
        FdirEvent::Recovery(second),
    ]);
    assert(failed.fdir.events[1] == FdirEvent::Recovery(second));
}

} // verus!
