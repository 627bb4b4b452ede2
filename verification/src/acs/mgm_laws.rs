//! Laws of the magnetometer handler.

use vstd::prelude::*;

use crate::acs::mgm::{
    raw_values, registers_read, sensor_data_request, MgmId, MgmModel, SpiModel,
};
use crate::acs::Telecommand;
use crate::bytes;
use crate::device_fdir::{FdirEvent, SupervisedModel};
use crate::fdir::RecoveryEvent;
use crate::health::HealthState;
use crate::minisim::acs::mgm as sim_mgm;
use crate::minisim::SimReply;
use crate::types::acs::mgm::request::{ModeRequest, Request};
use crate::types::acs::mgm::response::{ModeResponse, Response};
use crate::types::acs::mgm::{Event, SensorData};
use crate::types::DeviceMode;

verus! {

/// Sensor values which are delivered in little endian order are read back from the receive
/// buffer.
pub proof fn law_registers_are_read_back(rx: Seq<u8>, values: sim_mgm::RawValues)
    requires
        rx.len() == 32,
    ensures
        raw_values(
            registers_read(
                rx,
                bytes::le_i16(values.x),
                bytes::le_i16(values.y),
                bytes::le_i16(values.z),
            ),
        ) == values,
{
    bytes::law_i16_bytes_roundtrip(values.x, 0, 0);
    bytes::law_i16_bytes_roundtrip(values.y, 0, 0);
    bytes::law_i16_bytes_roundtrip(values.z, 0, 0);
}

/// The handler reads the dummy values, which stay the same.
pub proof fn law_dummy_values_arrive(handler: MgmModel, values: sim_mgm::RawValues, now: nat)
    requires
        handler.inv(),
        handler.spi == SpiModel::Dummy(values),
    ensures
        handler.next_values() == values,
        handler.polled(now).spi == handler.spi,
{
    law_registers_are_read_back(handler.rx, values);
}

/// The handler reads what a test interface delivers.
pub proof fn law_test_values_arrive(
    handler: MgmModel,
    call_count: nat,
    next: sim_mgm::RawValues,
    now: nat,
)
    requires
        handler.inv(),
        handler.spi == (SpiModel::Test { call_count, next }),
    ensures
        handler.next_values() == next,
        handler.polled(now).spi == (SpiModel::Test { call_count: call_count + 1, next }),
{
    law_registers_are_read_back(handler.rx, next);
}

/// The handler reads what its simulated device sent. If the device did not send anything in time,
/// or another device did, the last values are read again.
pub proof fn law_sim_values_arrive(
    handler: MgmModel,
    id: MgmId,
    reply_id: sim_mgm::Id,
    reply: sim_mgm::Reply,
)
    requires
        handler.inv(),
        handler.spi matches SpiModel::Sim { id: sim_id, .. } && sim_id == id,
    ensures
        handler.spi->Sim_reply == Some((SimReply::Mgm { id: reply_id, reply }))
            ==> handler.next_values() == (if reply_id == id.spec_sim_id() {
            reply.raw
        } else {
            raw_values(handler.rx)
        }),
        handler.spi->Sim_reply is None ==> handler.next_values() == raw_values(handler.rx),
{
    law_registers_are_read_back(handler.rx, reply.raw);
}

/// A simulated device is asked for its data once per poll, whether the poll is part of a cycle or
/// not. A device which is not polled is not asked.
pub proof fn law_sim_device_is_asked_once(handler: MgmModel, id: MgmId, now: nat)
    requires
        handler.inv(),
        handler.spi matches SpiModel::Sim { id: sim_id, .. } && sim_id == id,
    ensures
        ({
            let requests = handler.spi->Sim_requests;
            let due = handler.cycle_prepared(now).poll_due();
            &&& handler.sensor_polled(now).spi->Sim_requests == requests.push(
                sensor_data_request(id),
            )
            &&& handler.cycled(now).spi->Sim_requests == (if due {
                requests.push(sensor_data_request(id))
            } else {
                requests
            })
        }),
{
    lemma_spi_untouched((MgmModel { tcs: Seq::empty(), ..handler }), handler.tcs, now);
    let commanded = handler.tcs_handled(now);
    lemma_spi_untouched_by_modes(
        (MgmModel { mode_requests: Seq::empty(), ..commanded }),
        commanded.mode_requests,
        now,
    );
}

/// Telecommands do not touch the communication with the device.
proof fn lemma_spi_untouched(handler: MgmModel, tcs: Seq<Telecommand<Request>>, now: nat)
    ensures
        handler.after_tcs(tcs, now).spi == handler.spi,
    decreases tcs.len(),
{
    if tcs.len() > 0 {
        lemma_spi_untouched(handler.tc_handled(tcs[0], now), tcs.drop_first(), now);
    }
}

/// Mode requests do not touch the communication with the device.
proof fn lemma_spi_untouched_by_modes(handler: MgmModel, requests: Seq<ModeRequest>, now: nat)
    ensures
        handler.after_mode_requests(requests, now).spi == handler.spi,
    decreases requests.len(),
{
    if requests.len() > 0 {
        lemma_spi_untouched_by_modes(
            handler.mode_request_handled(requests[0], now),
            requests.drop_first(),
            now,
        );
    }
}

/// A poll of a stuck bus only invalidates the sensor data. Any other poll stores the new values
/// and never counts a fault.
pub proof fn law_poll_updates_sensor_data(handler: MgmModel, now: nat)
    ensures
        handler.bus_is_stuck() ==> handler.polled(now).set == (SensorData {
            valid: false,
            ..handler.set
        }),
        !handler.bus_is_stuck() ==> {
            &&& handler.polled(now).set == (SensorData {
                valid: true,
                raw: handler.next_values(),
            })
            &&& handler.polled(now).device.modes == handler.device.modes
            &&& handler.polled(now).events == handler.events
            &&& handler.polled(now).device.fdir.counter.fault_count
                <= handler.device.fdir.counter.fault_count
        },
{
}

/// The device is not polled outside of normal mode and during transitions, which includes power
/// cycles: neither the bus nor the sensor data nor the fault counter is touched.
pub proof fn law_no_polling_in_transitions(handler: MgmModel, now: nat)
    requires
        handler.device.modes.current != DeviceMode::Normal || handler.device.modes.target is Some,
    ensures
        handler.cycle_finished(now).spi == handler.spi,
        handler.cycle_finished(now).rx == handler.rx,
        handler.cycle_finished(now).set == handler.set,
        handler.cycle_finished(now).device == handler.device,
{
}

/// One stuck poll more than the threshold tolerates power cycles a healthy device: two events
/// are sent, the component needs a recovery and the sensor data is invalid. To other components,
/// the device stays in normal mode.
pub proof fn law_stuck_bus_power_cycles(handler: MgmModel, now: nat)
    requires
        handler.poll_due(),
        handler.bus_is_stuck(),
        handler.device.fdir.counter.fault_count >= handler.device.fdir.counter.failure_threshold,
        handler.device.fdir.events.len() == 0,
        !handler.device.fdir.recovery.ignores_faults(),
        !handler.device.fdir.recovery.attempts_used_up(),
        !handler.device.modes.power_cycle_active(),
    ensures
        ({
            let after = handler.polled(now);
            let sender = handler.id.spec_component_id();
            &&& after.events == handler.events.push(
                (sender, Event::SpiFaultThresholdExceeded),
            ).push((sender, Event::Recovery(RecoveryEvent::Started)))
            &&& after.device.fdir.recovery.health() == Some(HealthState::NeedsRecovery)
            &&& after.device.modes.power_cycle_active()
            &&& after.device.modes.reported_mode() == DeviceMode::Normal
            &&& !after.set.valid
            &&& !after.poll_due()
        }),
{
    let faulted = handler.device.after_fault(now);
    let queued = faulted.fdir.events;
    assert(queued =~= seq![
        FdirEvent::FaultThresholdExceeded,
        FdirEvent::Recovery(RecoveryEvent::Started),
    ]);
    let sender = handler.id.spec_component_id();
    assert(handler.polled(now).events =~= handler.events.push(
        (sender, Event::SpiFaultThresholdExceeded),
    ).push((sender, Event::Recovery(RecoveryEvent::Started))));
}

/// A ping is answered once, and a telecommand which could not be decoded has no effect.
pub proof fn law_ping_is_answered(handler: MgmModel, tc: Telecommand<Request>, now: nat)
    ensures
        tc.request == Some(Request::Ping) ==> handler.tc_handled(tc, now) == (MgmModel {
            tms: handler.tms.push((Some(tc.spec_tc_id()), Response::Success)),
            ..handler
        }),
        tc.request is None ==> handler.tc_handled(tc, now) == handler,
{
}

/// A power cycle is hidden from whoever asks for the mode.
pub proof fn law_read_mode_hides_power_cycle(
    handler: MgmModel,
    tc: Telecommand<Request>,
    restore_mode: DeviceMode,
    off_duration: nat,
    start: nat,
    now: nat,
)
    requires
        tc.request == Some(Request::Mode(ModeRequest::ReadMode)),
    ensures
        ({
            let cycling = MgmModel {
                device: SupervisedModel {
                    modes: handler.device.modes.power_cycle_started(
                        restore_mode,
                        off_duration,
                        start,
                    ),
                    ..handler.device
                },
                ..handler
            };
            cycling.tc_handled(tc, now).tms == handler.tms.push(
                (
                    Some(tc.spec_tc_id()),
                    Response::Mode(ModeResponse::Mode(restore_mode)),
                ),
            )
        }),
{
}

/// A commanded mode which the switch allows is reached, announced as an event, confirmed to the
/// commander and reported to the parent.
pub proof fn law_commanded_mode_is_confirmed(
    handler: MgmModel,
    tc: Telecommand<Request>,
    mode: DeviceMode,
    start: nat,
    now: nat,
)
    requires
        tc.request == Some(Request::Mode(ModeRequest::SetMode(mode))),
        handler.device.modes.power.is_switch_on(handler.device.modes.switch_id) == (mode
            != DeviceMode::Off),
    ensures
        ({
            let after = handler.tc_handled(tc, start).mode_handled(now);
            &&& after.device.modes.current == mode
            &&& after.device.modes.target is None
            &&& after.tms == handler.tms.push((Some(tc.spec_tc_id()), Response::Success))
            &&& after.mode_reports == handler.mode_reports.push(ModeResponse::Mode(mode))
            &&& after.events == handler.events.push(
                (handler.id.spec_component_id(), Event::ModeChanged(mode)),
            )
        }),
{
}

/// A commanded mode which the switch does not reach in time is answered with a timeout, to the
/// commander and to the parent. The mode stays as it was.
pub proof fn law_mode_timeout_is_reported(
    handler: MgmModel,
    tc: Telecommand<Request>,
    mode: DeviceMode,
    start: nat,
    now: nat,
)
    requires
        tc.request == Some(Request::Mode(ModeRequest::SetMode(mode))),
        handler.device.modes.power.is_switch_on(handler.device.modes.switch_id) != (mode
            != DeviceMode::Off),
        crate::time::elapsed(start, now) >= handler.device.modes.timeout,
    ensures
        ({
            let after = handler.tc_handled(tc, start).mode_handled(now);
            &&& after.device.modes.current == handler.device.modes.current
            &&& after.device.modes.target is None
            &&& after.tms == handler.tms.push(
                (Some(tc.spec_tc_id()), Response::Mode(ModeResponse::SetModeTimeout)),
            )
            &&& after.mode_reports == handler.mode_reports.push(ModeResponse::SetModeTimeout)
            &&& after.events == handler.events
        }),
{
}

/// Commanding the device off invalidates the sensor data right away.
pub proof fn law_switching_off_invalidates(
    handler: MgmModel,
    tc: Telecommand<Request>,
    now: nat,
)
    requires
        tc.request == Some(Request::Mode(ModeRequest::SetMode(DeviceMode::Off))),
    ensures
        !handler.tc_handled(tc, now).set.valid,
        handler.tc_handled(tc, now).device.modes.target == Some(DeviceMode::Off),
{
}

/// Telecommands keep the invariants of mode transitions, and send no FDIR events.
proof fn lemma_tcs(handler: MgmModel, tcs: Seq<Telecommand<Request>>, now: nat)
    requires
        handler.device.modes.inv(),
    ensures
        handler.after_tcs(tcs, now).device.modes.inv(),
        handler.after_tcs(tcs, now).device.fdir.events == handler.device.fdir.events,
    decreases tcs.len(),
{
    if tcs.len() > 0 {
        lemma_tcs(handler.tc_handled(tcs[0], now), tcs.drop_first(), now);
    }
}

/// Mode requests keep the invariants of mode transitions, and send no FDIR events.
proof fn lemma_mode_requests(handler: MgmModel, requests: Seq<ModeRequest>, now: nat)
    requires
        handler.device.modes.inv(),
    ensures
        handler.after_mode_requests(requests, now).device.modes.inv(),
        handler.after_mode_requests(requests, now).device.fdir.events
            == handler.device.fdir.events,
    decreases requests.len(),
{
    if requests.len() > 0 {
        lemma_mode_requests(
            handler.mode_request_handled(requests[0], now),
            requests.drop_first(),
            now,
        );
    }
}

/// The turn of the FDIR keeps the invariants of mode transitions, and leaves no FDIR event.
proof fn lemma_fdir_cycled(handler: MgmModel, now: nat)
    requires
        handler.device.modes.inv(),
    ensures
        handler.fdir_cycled(now).device.modes.inv(),
        handler.fdir_cycled(now).device.fdir.events.len() == 0,
{
}

/// Driving the mode transition keeps its invariants, and leaves no FDIR event.
proof fn lemma_mode_handled(handler: MgmModel, now: nat)
    requires
        handler.device.modes.inv(),
        handler.device.fdir.events.len() == 0,
    ensures
        handler.mode_handled(now).device.modes.inv(),
        handler.mode_handled(now).device.fdir.events.len() == 0,
{
    assert(handler.device.modes.handled(now).inv());
}

/// The second part of a cycle keeps the invariants of mode transitions, and leaves no FDIR event.
proof fn lemma_cycle_finished(handler: MgmModel, now: nat)
    requires
        handler.device.modes.inv(),
        handler.device.fdir.events.len() == 0,
    ensures
        handler.cycle_finished(now).device.modes.inv(),
        handler.cycle_finished(now).device.fdir.events.len() == 0,
{
    assert(handler.device.after_fault(now).modes.inv());
}

/// A cycle keeps the invariants of mode transitions, and leaves no FDIR event behind.
pub proof fn law_cycle_invariants(handler: MgmModel, now: nat)
    requires
        handler.device.modes.inv(),
    ensures
        handler.cycled(now).device.modes.inv(),
        handler.cycled(now).device.fdir.events.len() == 0,
{
    lemma_tcs((MgmModel { tcs: Seq::empty(), ..handler }), handler.tcs, now);
    let commanded = handler.tcs_handled(now);
    lemma_mode_requests(
        (MgmModel { mode_requests: Seq::empty(), ..commanded }),
        commanded.mode_requests,
        now,
    );
    let requested = commanded.mode_requests_handled(now);
    lemma_fdir_cycled(requested, now);
    lemma_mode_handled(requested.fdir_cycled(now), now);
    lemma_cycle_finished(handler.cycle_started(now), now);
}

} // verus!
