use satrs_obsw::acs::mgm::{
    MgmHandlerLis3Mdl, MgmId, SpiCommunication, SpiDummyInterface, SpiSimInterface,
    TestSpiInterface, SPI_FAULT_THRESHOLD,
};
use satrs_obsw::acs::Telecommand;
use satrs_obsw::device_fdir::RECOVERY_THRESHOLD;
use satrs_obsw::eps::{PowerSwitchHelper, SwitchSet};
use satrs_obsw::fdir::RecoveryEvent;
use satrs_obsw::health::{HealthState, HealthTableMap};
use satrs_obsw::minisim::acs::mgm as sim_mgm;
use satrs_obsw::minisim::{SimReply, SimRequest};
use satrs_obsw::time::{Duration, Instant};
use satrs_obsw::types::acs::mgm::request::{HealthRequest, HkId, HkRequest, ModeRequest, Request};
use satrs_obsw::types::acs::mgm::response::{HkResponse, ModeResponse, Response};
use satrs_obsw::types::acs::mgm::{Event, SensorData};
use satrs_obsw::types::ccsds::{CcsdsPacketIdAndPsc, SpacePacketHeader};
use satrs_obsw::types::pcdu::{SwitchId, SwitchState, SwitchStateBinary};
use satrs_obsw::types::{ComponentId, DeviceMode, HkRequestType};

const FIELD_LSB_PER_GAUSS_4_SENS: f32 = 1.0 / 6842.0;

fn microtesla(raw: i16) -> f32 {
    raw as f32 * sim_mgm::GAUSS_TO_MICROTESLA_FACTOR as f32 * FIELD_LSB_PER_GAUSS_4_SENS
}

fn create_request_tc(request: Request) -> Telecommand<Request> {
    Telecommand {
        sp_header: SpacePacketHeader { version: 0, packet_id: 0x1003, psc: 0xc000, data_len: 4 },
        request: Some(request),
    }
}

fn tc_id() -> CcsdsPacketIdAndPsc {
    CcsdsPacketIdAndPsc { packet_id: 0x1003, psc: 0xc000 }
}

fn set_mode(mode: DeviceMode) -> Telecommand<Request> {
    create_request_tc(Request::Mode(ModeRequest::SetMode(mode)))
}

fn one_shot_hk() -> Telecommand<Request> {
    create_request_tc(Request::Hk(HkRequest {
        id: HkId::Sensor,
        req_type: HkRequestType::OneShot,
    }))
}

fn set_health(health: HealthState) -> Telecommand<Request> {
    create_request_tc(Request::Health(HealthRequest::SetHealth(health)))
}

struct MgmTestbench {
    handler: MgmHandlerLis3Mdl,
}

impl MgmTestbench {
    fn new() -> Self {
        Self::with_interface(SpiCommunication::Test(TestSpiInterface::default()))
    }

    fn with_interface(spi_com: SpiCommunication) -> Self {
        let mut handler = MgmHandlerLis3Mdl::new(
            MgmId::_0,
            PowerSwitchHelper::new(SwitchSet::new(SwitchState::Off)),
            spi_com,
            SensorData::default(),
            Duration::from_millis(100),
            HealthTableMap::new(),
        );
        handler.set_recovery_off_duration(Duration::zero());
        Self { handler }
    }

    /// Switches the MGM to `Normal` mode, completing the power-switch handshake.
    fn switch_to_normal(&mut self) {
        self.handler.queue_telecommand(set_mode(DeviceMode::Normal));
        self.handler.periodic_operation();
        self.set_switch_state(SwitchState::On);
        self.handler.periodic_operation();
        assert_eq!(self.handler.mode(), DeviceMode::Normal);
    }

    fn set_switch_state(&mut self, state: SwitchState) {
        self.handler.set_switch_set(SwitchSet {
            mgm0: state,
            mgm1: SwitchState::Off,
            mgt: SwitchState::Off,
        });
    }

    fn inject_stuck_bus(&mut self) {
        self.test_spi_interface().next_mgm_data = sim_mgm::RawValues { x: -1, y: -1, z: -1 };
    }

    /// Drives SPI faults until the SPI fault threshold is exceeded once.
    fn exceed_spi_fault_threshold(&mut self) {
        self.inject_stuck_bus();
        for _ in 0..SPI_FAULT_THRESHOLD + 1 {
            self.handler.periodic_operation();
        }
    }

    /// Drives a started power cycle recovery to completion, completing both power-switch
    /// handshakes.
    fn complete_power_cycle(&mut self) {
        self.handler.periodic_operation();
        self.set_switch_state(SwitchState::Off);
        self.handler.periodic_operation();
        assert_eq!(self.handler.mode(), DeviceMode::Off);
        self.handler.periodic_operation();
        assert_eq!(self.handler.target_mode(), Some(DeviceMode::Normal));
        self.set_switch_state(SwitchState::On);
        self.handler.periodic_operation();
        assert_eq!(self.handler.mode(), DeviceMode::Normal);
    }

    /// Drives recoveries with a permanently stuck bus until the component is marked faulty.
    fn recover_until_faulty(&mut self) {
        self.exceed_spi_fault_threshold();
        for _ in 0..RECOVERY_THRESHOLD {
            assert_eq!(self.handler.health(), Some(HealthState::NeedsRecovery));
            self.complete_power_cycle();
            // The last cycle of the power cycle already polled once.
            for _ in 0..SPI_FAULT_THRESHOLD {
                self.handler.periodic_operation();
            }
        }
        assert_eq!(self.handler.health(), Some(HealthState::Faulty));
    }

    fn drain_events(&mut self) -> Vec<Event> {
        self.handler.take_events().into_iter().map(|(_, event)| event).collect()
    }

    fn drain_switch_requests(&mut self) -> Vec<SwitchStateBinary> {
        self.handler.take_switch_requests().iter().map(|req| req.target_state).collect()
    }

    fn test_spi_interface(&mut self) -> &mut TestSpiInterface {
        match self.handler.spi_com_mut() {
            SpiCommunication::Dummy(_) | SpiCommunication::Sim(_) => {
                panic!("unexpected SPI interface")
            }
            SpiCommunication::Test(test_spi_interface) => test_spi_interface,
        }
    }
}

#[test]
fn test_basic_handler() {
    let mut testbench = MgmTestbench::new();
    assert_eq!(testbench.test_spi_interface().call_count, 0);
    assert_eq!(testbench.handler.mode(), DeviceMode::Off);
    testbench.handler.periodic_operation();
    // Handler is OFF, no changes expected.
    assert_eq!(testbench.test_spi_interface().call_count, 0);
    assert_eq!(testbench.handler.mode(), DeviceMode::Off);
}

#[test]
fn test_normal_handler() {
    let mut testbench = MgmTestbench::new();
    testbench.handler.queue_telecommand(set_mode(DeviceMode::Normal));
    testbench.handler.periodic_operation();
    assert_eq!(testbench.handler.mode(), DeviceMode::Off);

    // Verify power switch handling.
    let switch_requests = testbench.handler.take_switch_requests();
    assert_eq!(switch_requests[0].switch_id, SwitchId::Mgm0);
    assert_eq!(switch_requests[0].target_state, SwitchStateBinary::On);

    // This simulates one cycle for the power switch to update.
    testbench.set_switch_state(SwitchState::On);

    // Now the power switch is updated and the mode request should be completed.
    testbench.handler.periodic_operation();

    assert_eq!(testbench.handler.mode(), DeviceMode::Normal);

    let tms = testbench.handler.take_telemetry();
    assert_eq!(testbench.handler.component_id(), ComponentId::AcsMgm0);
    assert_eq!(tms, [(Some(tc_id()), Response::Success)]);

    let events = testbench.handler.take_events();
    assert_eq!(events[0], (ComponentId::AcsMgm0, Event::ModeChanged(DeviceMode::Normal)));
    // The device should have been polled once.
    assert_eq!(testbench.test_spi_interface().call_count, 1);
    let mgm_set = testbench.handler.sensor_data();
    assert!(microtesla(mgm_set.raw.x) < 0.001);
    assert!(microtesla(mgm_set.raw.y) < 0.001);
    assert!(microtesla(mgm_set.raw.z) < 0.001);
    assert!(mgm_set.valid);

    assert!(testbench.handler.take_telemetry().is_empty());
}

#[test]
fn test_normal_handler_mgm_set_conversion() {
    let mut testbench = MgmTestbench::new();
    let raw_values = sim_mgm::RawValues { x: 1000, y: -1000, z: 1000 };
    testbench.test_spi_interface().next_mgm_data = raw_values;
    testbench.handler.queue_telecommand(set_mode(DeviceMode::Normal));
    testbench.handler.periodic_operation();

    // This simulates one cycle for the power switch to update.
    testbench.set_switch_state(SwitchState::On);

    // Now the power switch is updated and the mode request should be completed.
    testbench.handler.periodic_operation();

    let mgm_set = testbench.handler.sensor_data();
    let x_diff = (microtesla(mgm_set.raw.x) - microtesla(raw_values.x)).abs();
    let y_diff = (microtesla(mgm_set.raw.y) - microtesla(raw_values.y)).abs();
    let z_diff = (microtesla(mgm_set.raw.z) - microtesla(raw_values.z)).abs();
    assert!(x_diff < 0.001, "x diff too large: {}", x_diff);
    assert!(y_diff < 0.001, "y diff too large: {}", y_diff);
    assert!(z_diff < 0.001, "z diff too large: {}", z_diff);
    assert_eq!(mgm_set.raw, raw_values);
    assert!(mgm_set.valid);
}

#[test]
fn test_hk_one_shot_device_off() {
    let mut testbench = MgmTestbench::new();
    // Device handler is initially off, first set will be invalid.
    testbench.handler.queue_telecommand(one_shot_hk());
    testbench.handler.periodic_operation();

    // This simulates one cycle for the power switch to update.
    testbench.set_switch_state(SwitchState::On);

    // Now the power switch is updated and the mode request should be completed.
    testbench.handler.periodic_operation();

    let tms = testbench.handler.take_telemetry();
    assert_eq!(testbench.handler.component_id(), ComponentId::AcsMgm0);
    if let (Some(id), Response::Hk(HkResponse::MgmData(data))) = tms[0] {
        assert_eq!(id, tc_id());
        assert_eq!(data.valid, false);
        assert!(microtesla(data.raw.x) < 0.001);
        assert!(microtesla(data.raw.y) < 0.001);
        assert!(microtesla(data.raw.z) < 0.001);
    } else {
        panic!("expected hk response");
    }
    assert_eq!(tms.len(), 1);
}

#[test]
fn test_hk_device_normal() {
    let mut testbench = MgmTestbench::new();
    testbench.handler.queue_telecommand(set_mode(DeviceMode::Normal));
    // This simulates one cycle for the power switch to update.
    testbench.set_switch_state(SwitchState::On);
    testbench.handler.periodic_operation();
    assert_eq!(testbench.handler.mode(), DeviceMode::Normal);

    testbench.handler.queue_telecommand(one_shot_hk());
    testbench.handler.periodic_operation();

    let tms = testbench.handler.take_telemetry();
    assert_eq!(testbench.handler.component_id(), ComponentId::AcsMgm0);
    assert_eq!(tms[0], (Some(tc_id()), Response::Success));
    if let Response::Hk(HkResponse::MgmData(data)) = tms[1].1 {
        // Set is now valid.
        assert_eq!(data.valid, true);
        assert!(microtesla(data.raw.x) < 0.001);
        assert!(microtesla(data.raw.y) < 0.001);
        assert!(microtesla(data.raw.z) < 0.001);
    } else {
        panic!("expected hk response");
    }
    assert_eq!(tms.len(), 2);
}

#[test]
fn test_spi_fault_below_threshold_stays_healthy() {
    let mut testbench = MgmTestbench::new();
    testbench.switch_to_normal();
    testbench.test_spi_interface().next_mgm_data = sim_mgm::RawValues { x: -1, y: -1, z: -1 };
    // One stuck-bus reading should not be enough to trip SPI_FAULT_THRESHOLD.
    testbench.handler.periodic_operation();
    assert_eq!(
        testbench.handler.health(),
        None,
        "component should not be marked faulty yet"
    );
    assert!(!testbench.handler.sensor_data().valid);
}

#[test]
fn test_spi_fault_above_threshold_starts_recovery() {
    let mut testbench = MgmTestbench::new();
    testbench.switch_to_normal();
    testbench.drain_events();
    testbench.exceed_spi_fault_threshold();
    assert_eq!(testbench.handler.health(), Some(HealthState::NeedsRecovery));
    assert!(!testbench.handler.sensor_data().valid);
    let events = testbench.drain_events();
    assert!(matches!(
        events[..],
        [Event::SpiFaultThresholdExceeded, Event::Recovery(RecoveryEvent::Started)]
    ));
}

#[test]
fn mgm_test_recovery_power_cycles_device() {
    let mut testbench = MgmTestbench::new();
    testbench.switch_to_normal();
    testbench.drain_events();
    testbench.drain_switch_requests();
    testbench.handler.take_mode_reports();
    testbench.exceed_spi_fault_threshold();
    testbench.test_spi_interface().next_mgm_data = sim_mgm::RawValues::default();
    let call_count = testbench.test_spi_interface().call_count;

    testbench.complete_power_cycle();

    // The device is only polled again once the power cycle is done.
    assert_eq!(testbench.test_spi_interface().call_count, call_count + 1);
    // The power cycle is hidden from the parent.
    assert!(testbench.handler.take_mode_reports().is_empty());

    assert_eq!(testbench.handler.health(), Some(HealthState::Healthy));
    assert_eq!(
        testbench.drain_switch_requests(),
        [SwitchStateBinary::Off, SwitchStateBinary::On]
    );
    let events = testbench.drain_events();
    assert!(matches!(
        events[..],
        [
            Event::SpiFaultThresholdExceeded,
            Event::Recovery(RecoveryEvent::Started),
            Event::Recovery(RecoveryEvent::Done),
        ]
    ));
    assert_eq!(testbench.handler.fault_count(), 0);
    assert!(testbench.handler.sensor_data().valid);
}

#[test]
fn mgm_test_repeated_recovery_marks_component_faulty() {
    let mut testbench = MgmTestbench::new();
    testbench.switch_to_normal();
    testbench.recover_until_faulty();
    let events = testbench.drain_events();
    assert!(matches!(
        events[..],
        [
            ..,
            Event::SpiFaultThresholdExceeded,
            Event::Recovery(RecoveryEvent::ThresholdExceeded)
        ]
    ));
    testbench.drain_switch_requests();

    testbench.handler.periodic_operation();
    assert_eq!(testbench.drain_switch_requests(), [SwitchStateBinary::Off]);
    testbench.set_switch_state(SwitchState::Off);
    testbench.handler.periodic_operation();
    assert_eq!(testbench.handler.mode(), DeviceMode::Off);
    assert_eq!(testbench.handler.health(), Some(HealthState::Faulty));
}

#[test]
fn test_faulty_device_is_not_polled_while_switching_off() {
    let mut testbench = MgmTestbench::new();
    testbench.switch_to_normal();
    testbench.recover_until_faulty();
    let call_count = testbench.test_spi_interface().call_count;

    // The switch-off takes a while.
    for _ in 0..SPI_FAULT_THRESHOLD + 1 {
        testbench.handler.periodic_operation();
    }
    assert_eq!(testbench.test_spi_interface().call_count, call_count);
    assert_eq!(testbench.handler.health(), Some(HealthState::Faulty));
    testbench.set_switch_state(SwitchState::Off);
    testbench.handler.periodic_operation();
    testbench.handler.periodic_operation();
    assert_eq!(testbench.handler.mode(), DeviceMode::Off);
    assert_eq!(testbench.handler.health(), Some(HealthState::Faulty));
}

#[test]
fn test_ground_needs_recovery_power_cycles_device() {
    let mut testbench = MgmTestbench::new();
    testbench.switch_to_normal();
    testbench.drain_events();
    testbench.handler.queue_telecommand(set_health(HealthState::NeedsRecovery));
    testbench.handler.periodic_operation();
    assert_eq!(testbench.handler.target_mode(), Some(DeviceMode::Off));
    testbench.set_switch_state(SwitchState::Off);
    testbench.handler.periodic_operation();
    assert_eq!(testbench.handler.mode(), DeviceMode::Off);
    testbench.handler.periodic_operation();
    testbench.set_switch_state(SwitchState::On);
    testbench.handler.periodic_operation();
    assert_eq!(testbench.handler.mode(), DeviceMode::Normal);
    assert_eq!(testbench.handler.health(), Some(HealthState::Healthy));
    let events = testbench.drain_events();
    assert!(matches!(events[0], Event::Recovery(RecoveryEvent::Started)));
    assert!(matches!(events.last(), Some(Event::Recovery(RecoveryEvent::Done))));
}

#[test]
fn test_needs_recovery_while_off_sets_healthy() {
    let mut testbench = MgmTestbench::new();
    testbench.handler.set_health(HealthState::NeedsRecovery);
    testbench.handler.periodic_operation();
    assert_eq!(testbench.handler.health(), Some(HealthState::Healthy));
    assert!(testbench.drain_switch_requests().is_empty());
}

#[test]
fn test_power_cycle_switch_on_failures_mark_component_faulty() {
    let mut testbench = MgmTestbench::new();
    testbench.switch_to_normal();
    testbench.drain_events();
    testbench.handler.take_mode_reports();
    testbench.inject_stuck_bus();
    let mut now = Instant { nanos: 1_000_000_000_000 };
    for _ in 0..SPI_FAULT_THRESHOLD + 1 {
        testbench.handler.periodic_operation_at(now);
    }

    // The switch never turns on again. Every failed power cycle costs a recovery attempt.
    for _ in 0..RECOVERY_THRESHOLD {
        assert_eq!(testbench.handler.health(), Some(HealthState::NeedsRecovery));
        testbench.handler.periodic_operation_at(now);
        testbench.set_switch_state(SwitchState::Off);
        testbench.handler.periodic_operation_at(now);
        testbench.handler.periodic_operation_at(now);
        now.nanos += 110_000_000;
        testbench.handler.periodic_operation_at(now);
    }
    assert_eq!(testbench.handler.health(), Some(HealthState::Faulty));
    let events = testbench.drain_events();
    let started = events
        .iter()
        .filter(|e| matches!(e, Event::Recovery(RecoveryEvent::Started)))
        .count();
    assert_eq!(started, RECOVERY_THRESHOLD as usize);
    assert!(matches!(
        events[..],
        [
            ..,
            Event::Recovery(RecoveryEvent::Failed),
            Event::Recovery(RecoveryEvent::ThresholdExceeded)
        ]
    ));
    // Retries are hidden from the parent.
    assert!(testbench.handler.take_mode_reports().is_empty());

    // The faulty device is commanded off, which is reported to the parent.
    testbench.handler.periodic_operation_at(now);
    assert_eq!(testbench.handler.mode(), DeviceMode::Off);
    assert_eq!(
        testbench.handler.take_mode_reports(),
        [ModeResponse::Mode(DeviceMode::Off)]
    );
}

#[test]
fn test_power_cycle_switch_off_failures_mark_component_faulty() {
    let mut testbench = MgmTestbench::new();
    testbench.switch_to_normal();
    testbench.drain_events();
    testbench.handler.take_mode_reports();
    testbench.inject_stuck_bus();
    let mut now = Instant { nanos: 1_000_000_000_000 };
    for _ in 0..SPI_FAULT_THRESHOLD + 1 {
        testbench.handler.periodic_operation_at(now);
    }
    testbench.test_spi_interface().next_mgm_data = sim_mgm::RawValues::default();

    // The switch never turns off. Every failed power cycle costs a recovery attempt.
    for _ in 0..RECOVERY_THRESHOLD {
        assert_eq!(testbench.handler.health(), Some(HealthState::NeedsRecovery));
        testbench.handler.periodic_operation_at(now);
        now.nanos += 110_000_000;
        testbench.handler.periodic_operation_at(now);
    }
    assert_eq!(testbench.handler.health(), Some(HealthState::Faulty));
    assert_eq!(testbench.handler.mode(), DeviceMode::Normal);
    assert_eq!(testbench.handler.target_mode(), Some(DeviceMode::Off));
    // The mode never changed, so it was not announced or reported.
    let events = testbench.drain_events();
    assert!(!events.iter().any(|e| matches!(e, Event::ModeChanged(_))));
    assert!(testbench.handler.take_mode_reports().is_empty());

    testbench.set_switch_state(SwitchState::Off);
    testbench.handler.periodic_operation_at(now);
    assert_eq!(testbench.handler.mode(), DeviceMode::Off);
    assert_eq!(
        testbench.handler.take_mode_reports(),
        [ModeResponse::Mode(DeviceMode::Off)]
    );
}

#[test]
fn test_health_command_during_recovery_is_kept() {
    let mut testbench = MgmTestbench::new();
    testbench.switch_to_normal();
    testbench.exceed_spi_fault_threshold();
    testbench.test_spi_interface().next_mgm_data = sim_mgm::RawValues::default();
    testbench.handler.queue_telecommand(set_health(HealthState::ExternalControl));

    // The power cycle is not cancelled, but it does not override the health set by ground.
    testbench.complete_power_cycle();
    assert_eq!(testbench.handler.health(), Some(HealthState::ExternalControl));
}

#[test]
fn test_read_mode_during_power_cycle_returns_restored_mode() {
    let mut testbench = MgmTestbench::new();
    testbench.switch_to_normal();
    testbench.exceed_spi_fault_threshold();
    testbench.handler.periodic_operation();
    testbench.set_switch_state(SwitchState::Off);
    // Keep the device off until the parent asked for its mode.
    testbench.handler.set_recovery_off_duration(Duration::from_secs(60));
    testbench.handler.periodic_operation();
    assert_eq!(testbench.handler.mode(), DeviceMode::Off);
    testbench.handler.take_mode_reports();

    testbench.handler.queue_mode_request(ModeRequest::ReadMode);
    testbench.handler.periodic_operation();
    assert!(matches!(
        testbench.handler.take_mode_reports()[..],
        [ModeResponse::Mode(DeviceMode::Normal)]
    ));
}

#[test]
fn mgm_test_mode_command_aborts_recovery() {
    let mut testbench = MgmTestbench::new();
    testbench.switch_to_normal();
    testbench.exceed_spi_fault_threshold();
    testbench.handler.periodic_operation();
    testbench.set_switch_state(SwitchState::Off);
    testbench.handler.queue_mode_request(ModeRequest::SetMode(DeviceMode::Off));
    testbench.handler.periodic_operation();
    testbench.handler.periodic_operation();
    assert_eq!(testbench.handler.mode(), DeviceMode::Off);
    assert_eq!(testbench.handler.target_mode(), None);
    assert_eq!(testbench.handler.health(), Some(HealthState::Healthy));
}

#[test]
fn test_spi_fault_does_not_override_external_control() {
    let mut testbench = MgmTestbench::new();
    testbench.switch_to_normal();
    testbench.handler.set_health(HealthState::ExternalControl);
    testbench.test_spi_interface().next_mgm_data = sim_mgm::RawValues { x: -1, y: -1, z: -1 };
    for _ in 0..SPI_FAULT_THRESHOLD + 1 {
        testbench.handler.periodic_operation();
    }
    // Ground took manual control; autonomous FDIR must not override that decision.
    assert_eq!(testbench.handler.health(), Some(HealthState::ExternalControl));
}

#[test]
fn test_recovering_from_spi_fault_clears_invalid_data_flag() {
    let mut testbench = MgmTestbench::new();
    testbench.switch_to_normal();
    testbench.test_spi_interface().next_mgm_data = sim_mgm::RawValues { x: -1, y: -1, z: -1 };
    testbench.handler.periodic_operation();
    assert!(!testbench.handler.sensor_data().valid);

    // Bus recovers before the threshold is exceeded.
    testbench.test_spi_interface().next_mgm_data = sim_mgm::RawValues::default();
    testbench.handler.periodic_operation();
    assert_eq!(testbench.handler.health(), None);
    assert!(testbench.handler.sensor_data().valid);
}

#[test]
fn ping_and_read_mode_are_answered() {
    let mut testbench = MgmTestbench::new();
    testbench.handler.queue_telecommand(create_request_tc(Request::Ping));
    testbench.handler.queue_telecommand(Telecommand {
        sp_header: SpacePacketHeader { version: 0, packet_id: 1, psc: 2, data_len: 3 },
        request: None,
    });
    testbench
        .handler
        .queue_telecommand(create_request_tc(Request::Mode(ModeRequest::ReadMode)));
    testbench.handler.handle_telecommands();
    assert_eq!(
        testbench.handler.take_telemetry(),
        [
            (Some(tc_id()), Response::Success),
            (Some(tc_id()), Response::Mode(ModeResponse::Mode(DeviceMode::Off))),
        ]
    );
}

#[test]
fn mode_timeout_is_reported() {
    let mut testbench = MgmTestbench::new();
    testbench.handler.queue_telecommand(set_mode(DeviceMode::On));
    testbench.handler.periodic_operation_at(Instant { nanos: 0 });
    testbench.handler.periodic_operation_at(Instant { nanos: 99_999_999 });
    assert!(testbench.handler.take_telemetry().is_empty());
    testbench.handler.periodic_operation_at(Instant { nanos: 100_000_000 });
    assert_eq!(
        testbench.handler.take_telemetry(),
        [(Some(tc_id()), Response::Mode(ModeResponse::SetModeTimeout))]
    );
    assert_eq!(testbench.handler.take_mode_reports(), [ModeResponse::SetModeTimeout]);
    assert_eq!(testbench.handler.mode(), DeviceMode::Off);
}

#[test]
fn periodic_hk_has_an_interval() {
    let mut testbench = MgmTestbench::new();
    let hk = |req_type| create_request_tc(Request::Hk(HkRequest { id: HkId::Sensor, req_type }));
    let at = |millis: u128| Instant { nanos: millis * 1_000_000 };
    testbench.handler.queue_telecommand(hk(HkRequestType::EnablePeriodic(None)));
    testbench.handler.periodic_operation_at(at(0));
    assert_eq!(testbench.handler.take_telemetry().len(), 1);
    testbench.handler.periodic_operation_at(at(199));
    assert!(testbench.handler.take_telemetry().is_empty());
    testbench.handler.periodic_operation_at(at(200));
    let tms = testbench.handler.take_telemetry();
    assert_eq!(tms, [(None, Response::Hk(HkResponse::MgmData(SensorData::default())))]);
    testbench
        .handler
        .queue_telecommand(hk(HkRequestType::ModifyInterval(Duration::from_millis(50))));
    testbench.handler.periodic_operation_at(at(250));
    assert_eq!(testbench.handler.take_telemetry().len(), 1);
    testbench.handler.queue_telecommand(hk(HkRequestType::DisablePeriodic));
    testbench.handler.periodic_operation_at(at(1000));
    assert!(testbench.handler.take_telemetry().is_empty());
}

#[test]
fn simulated_values_arrive() {
    let mut testbench =
        MgmTestbench::with_interface(SpiCommunication::Sim(SpiSimInterface::new(MgmId::_0)));
    testbench.handler.queue_telecommand(set_mode(DeviceMode::Normal));
    testbench.set_switch_state(SwitchState::On);
    let now = Instant { nanos: 0 };
    testbench.handler.start_cycle_at(now);
    let raw = sim_mgm::RawValues { x: 300, y: -2, z: i16::MIN };
    match testbench.handler.spi_com_mut() {
        SpiCommunication::Sim(interface) => {
            assert_eq!(interface.requests.len(), 1);
            assert_eq!(
                interface.requests[0].request,
                SimRequest::Mgm {
                    id: sim_mgm::Id::Mgm0,
                    request: sim_mgm::Request::RequestSensorData
                }
            );
            interface.reply = Some(SimReply::Mgm {
                id: sim_mgm::Id::Mgm0,
                reply: sim_mgm::Reply {
                    switch_state: SwitchStateBinary::On,
                    sensor_values: sim_mgm::SensorValuesMicroTesla { x: 0, y: 0, z: 0 },
                    raw,
                },
            });
        }
        _ => panic!("unexpected SPI interface"),
    }
    testbench.handler.finish_cycle_at(now);
    assert_eq!(testbench.handler.sensor_data(), SensorData { valid: true, raw });

    // Replies of another device are ignored, and the last values are read again.
    testbench.handler.start_cycle_at(now);
    match testbench.handler.spi_com_mut() {
        SpiCommunication::Sim(interface) => {
            interface.reply = Some(SimReply::Mgm {
                id: sim_mgm::Id::Mgm1,
                reply: sim_mgm::Reply {
                    switch_state: SwitchStateBinary::On,
                    sensor_values: sim_mgm::SensorValuesMicroTesla { x: 0, y: 0, z: 0 },
                    raw: sim_mgm::RawValues::splat(-1),
                },
            })
        }
        _ => panic!("unexpected SPI interface"),
    }
    testbench.handler.finish_cycle_at(now);
    assert_eq!(testbench.handler.sensor_data(), SensorData { valid: true, raw });
    assert_eq!(testbench.handler.fault_count(), 0);
}

#[test]
fn poll_asks_the_simulated_device() {
    let mut testbench =
        MgmTestbench::with_interface(SpiCommunication::Sim(SpiSimInterface::new(MgmId::_1)));
    testbench.handler.poll_sensor();
    testbench.handler.poll_sensor_at(Instant { nanos: 0 });
    match testbench.handler.spi_com() {
        SpiCommunication::Sim(interface) => {
            let requests: Vec<&SimRequest> =
                interface.requests.iter().map(|request| &request.request).collect();
            let expected = SimRequest::Mgm {
                id: sim_mgm::Id::Mgm1,
                request: sim_mgm::Request::RequestSensorData,
            };
            assert_eq!(requests, [&expected, &expected]);
        }
        _ => panic!("unexpected SPI interface"),
    }
}

#[test]
fn dummy_values_are_read_back() {
    let mut testbench = MgmTestbench::with_interface(SpiCommunication::Dummy(SpiDummyInterface {
        dummy_values: sim_mgm::RawValues { x: 1, y: 2, z: 3 },
    }));
    testbench.handler.poll_sensor();
    assert_eq!(testbench.handler.sensor_data().raw, sim_mgm::RawValues { x: 1, y: 2, z: 3 });
    testbench.handler.poll_sensor();
    assert_eq!(testbench.handler.sensor_data().raw, sim_mgm::RawValues { x: 1, y: 2, z: 3 });
}

#[test]
fn device_ids_belong_together() {
    assert_eq!(MgmId::_0.str(), "MGM 0");
    assert_eq!(MgmId::_1.str(), "MGM 1");
    assert_eq!(MgmId::_1.component_id(), ComponentId::AcsMgm1);
    assert_eq!(MgmId::_1.switch_id(), SwitchId::Mgm1);
    assert_eq!(MgmId::_1.sim_id(), sim_mgm::Id::Mgm1);
}
