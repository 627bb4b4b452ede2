use satrs_obsw::acs::mgt::{
    DummyInterface, MgtCommunication, MgtHandler, SimInterface, TestInterface,
    COMM_FAULT_THRESHOLD,
};
use satrs_obsw::acs::Telecommand;
use satrs_obsw::device_fdir::RECOVERY_THRESHOLD;
use satrs_obsw::eps::{PowerSwitchHelper, SwitchSet};
use satrs_obsw::fdir::RecoveryEvent;
use satrs_obsw::health::{HealthState, HealthTableMap};
use satrs_obsw::minisim::acs::mgt as sim_mgt;
use satrs_obsw::minisim::{SimCtrlReply, SimReply, SimRequest};
use satrs_obsw::time::{Duration, Instant};
use satrs_obsw::types::acs::mgt::request::{HealthRequest, ModeRequest, Request};
use satrs_obsw::types::acs::mgt::response::{ModeResponse, Response};
use satrs_obsw::types::acs::mgt::{Dipole, Event, HkSet};
use satrs_obsw::types::ccsds::{CcsdsPacketIdAndPsc, SpacePacketHeader};
use satrs_obsw::types::pcdu::{SwitchId, SwitchState, SwitchStateBinary};
use satrs_obsw::types::{ComponentId, DeviceMode, HkRequestType};

fn sent_requests(interface: &TestInterface) -> Vec<sim_mgt::Request> {
    interface
        .sent_frames
        .iter()
        .map(|frame| sim_mgt::Request::from_frame(frame).unwrap())
        .collect()
}

fn tc_id() -> CcsdsPacketIdAndPsc {
    CcsdsPacketIdAndPsc { packet_id: 0x1003, psc: 0xc000 }
}

struct MgtTestbench {
    handler: MgtHandler,
    tms: Vec<(Option<CcsdsPacketIdAndPsc>, Response)>,
}

impl MgtTestbench {
    fn new() -> Self {
        Self::with_interface(MgtCommunication::Test(TestInterface::new()))
    }

    fn with_interface(com: MgtCommunication) -> Self {
        let mut handler = MgtHandler::new(
            PowerSwitchHelper::new(SwitchSet::new(SwitchState::Off)),
            com,
            Duration::from_millis(100),
            HealthTableMap::new(),
        );
        handler.set_recovery_off_duration(Duration::zero());
        Self { handler, tms: Vec::new() }
    }

    fn send_tc(&mut self, request: Request) {
        self.handler.queue_telecommand(Telecommand {
            sp_header: SpacePacketHeader {
                version: 0,
                packet_id: 0x1003,
                psc: 0xc000,
                data_len: 4,
            },
            request: Some(request),
        });
    }

    fn try_next_response(&mut self) -> Option<Response> {
        self.tms.append(&mut self.handler.take_telemetry());
        if self.tms.is_empty() {
            None
        } else {
            Some(self.tms.remove(0).1)
        }
    }

    fn next_response(&mut self) -> Response {
        assert_eq!(self.handler.component_id(), ComponentId::AcsMgt);
        self.try_next_response().expect("no TM generated")
    }

    /// Completes the power switch handshake for a commanded switch-on.
    fn switch_to_normal(&mut self) {
        self.send_tc(Request::Mode(ModeRequest::SetMode(DeviceMode::Normal)));
        self.handler.periodic_operation();
        self.set_switch_state(SwitchState::On);
        self.handler.periodic_operation();
        assert_eq!(self.handler.mode(), DeviceMode::Normal);
        assert_eq!(self.next_response(), Response::Success);
    }

    fn test_interface(&mut self) -> &mut TestInterface {
        match self.handler.com_mut() {
            MgtCommunication::Test(test) => test,
            _ => panic!("unexpected MGT interface"),
        }
    }

    fn push_reply(&mut self, reply: sim_mgt::Reply) {
        self.test_interface().replies.push_back(reply.to_frame());
    }

    fn set_switch_state(&mut self, state: SwitchState) {
        self.handler.set_switch_set(SwitchSet {
            mgm0: SwitchState::Off,
            mgm1: SwitchState::Off,
            mgt: state,
        });
    }

    fn health(&self) -> Option<HealthState> {
        self.handler.health()
    }

    fn drain_events(&mut self) -> Vec<Event> {
        self.handler.take_events()
    }

    fn drain_switch_requests(&mut self) -> Vec<SwitchStateBinary> {
        self.handler.take_switch_requests().iter().map(|req| req.target_state).collect()
    }

    /// Drives comm timeout faults until the fault threshold is exceeded once. No replies
    /// must be queued on the test interface for this to trigger. Assumes one poll is
    /// already outstanding, for example right after [Self::switch_to_normal].
    fn exceed_comm_fault_threshold(&mut self) {
        for _ in 0..COMM_FAULT_THRESHOLD + 1 {
            self.handler.periodic_operation();
        }
    }

    /// Drives a started power cycle recovery to completion, completing both power-switch
    /// handshakes.
    fn complete_power_cycle(&mut self) {
        self.handler.periodic_operation();
        self.set_switch_state(SwitchState::Off);
        self.handler.periodic_operation();
        assert_eq!(self.handler.mode(), DeviceMode::Off);
        self.handler.periodic_operation();
        assert_eq!(self.handler.target_mode(), Some(DeviceMode::Normal));
        self.set_switch_state(SwitchState::On);
        self.handler.periodic_operation();
        assert_eq!(self.handler.mode(), DeviceMode::Normal);
    }

    /// Drives recoveries with a permanently stalled link until the component is marked
    /// faulty.
    fn recover_until_faulty(&mut self) {
        self.exceed_comm_fault_threshold();
        for _ in 0..RECOVERY_THRESHOLD {
            assert_eq!(self.health(), Some(HealthState::NeedsRecovery));
            self.complete_power_cycle();
            // The last cycle of the power cycle only starts a new poll, so the full
            // threshold is needed again to trip.
            for _ in 0..COMM_FAULT_THRESHOLD + 1 {
                self.handler.periodic_operation();
            }
        }
        assert_eq!(self.health(), Some(HealthState::Faulty));
    }
}

#[test]
fn test_initial_state_no_polling() {
    let mut testbench = MgtTestbench::new();
    testbench.handler.periodic_operation();
    assert_eq!(testbench.handler.mode(), DeviceMode::Off);
    assert!(testbench.test_interface().sent_frames.is_empty());
}

#[test]
fn test_switch_to_normal() {
    let mut testbench = MgtTestbench::new();
    testbench.send_tc(Request::Mode(ModeRequest::SetMode(DeviceMode::Normal)));
    testbench.handler.periodic_operation();
    let switch_request = testbench.handler.take_switch_requests()[0];
    assert_eq!(switch_request.switch_id, SwitchId::Mgt);
    assert_eq!(switch_request.target_state, SwitchStateBinary::On);
    assert_eq!(testbench.handler.mode(), DeviceMode::Off);

    testbench.set_switch_state(SwitchState::On);
    testbench.handler.periodic_operation();
    assert_eq!(testbench.handler.mode(), DeviceMode::Normal);
    assert_eq!(testbench.next_response(), Response::Success);
    assert!(matches!(
        testbench.handler.take_events()[..],
        [Event::ModeChanged(DeviceMode::Normal)]
    ));
    assert_eq!(
        testbench.handler.take_mode_reports(),
        [ModeResponse::Mode(DeviceMode::Normal)]
    );
}

#[test]
fn test_mode_command_from_parent() {
    let mut testbench = MgtTestbench::new();
    testbench.handler.queue_mode_request(ModeRequest::SetMode(DeviceMode::Normal));
    testbench.handler.periodic_operation();
    testbench.set_switch_state(SwitchState::On);
    testbench.handler.periodic_operation();
    assert_eq!(
        testbench.handler.take_mode_reports(),
        [ModeResponse::Mode(DeviceMode::Normal)]
    );
    // Commanded by the parent, so no TC response is expected.
    assert!(testbench.try_next_response().is_none());
}

#[test]
fn test_torque_command_rejected_when_off() {
    let mut testbench = MgtTestbench::new();
    testbench.send_tc(Request::ApplyTorque {
        dipole: Dipole { x: 1, y: 2, z: 3 },
        duration: Duration::from_millis(100),
    });
    testbench.handler.periodic_operation();
    assert_eq!(testbench.next_response(), Response::NotInNormalMode);
    assert!(testbench.test_interface().sent_frames.is_empty());
}

#[test]
fn test_torque_command_forwarded_in_normal_mode() {
    let mut testbench = MgtTestbench::new();
    testbench.switch_to_normal();
    testbench.test_interface().sent_frames.clear();

    testbench.send_tc(Request::ApplyTorque {
        dipole: Dipole { x: 1, y: 2, z: 3 },
        duration: Duration::from_millis(100),
    });
    testbench.handler.periodic_operation();
    assert_eq!(testbench.next_response(), Response::Success);
    assert_eq!(
        sent_requests(testbench.test_interface()).first(),
        Some(&sim_mgt::Request::ApplyTorque {
            duration: Duration::from_millis(100),
            dipole: sim_mgt::Dipole { x: 1, y: 2, z: 3 },
        })
    );
}

#[test]
fn test_hk_polling_updates_hk_set() {
    let mut testbench = MgtTestbench::new();
    testbench.switch_to_normal();
    assert!(sent_requests(testbench.test_interface()).contains(&sim_mgt::Request::RequestHk));

    testbench.push_reply(sim_mgt::Reply::Hk(sim_mgt::HkSet {
        dipole: sim_mgt::Dipole { x: 1, y: 2, z: 3 },
        torquing: true,
    }));
    testbench.handler.periodic_operation();
    testbench.send_tc(Request::Hk(HkRequestType::OneShot));
    testbench.handler.periodic_operation();
    assert_eq!(
        testbench.next_response(),
        Response::Hk(HkSet {
            valid: true,
            dipole: Dipole { x: 1, y: 2, z: 3 },
            torquing: true,
        })
    );
}

#[test]
fn test_hk_set_invalid_after_switch_off() {
    let mut testbench = MgtTestbench::new();
    testbench.switch_to_normal();
    testbench.push_reply(sim_mgt::Reply::Hk(sim_mgt::HkSet {
        dipole: sim_mgt::Dipole::default(),
        torquing: false,
    }));
    testbench.handler.periodic_operation();

    testbench.send_tc(Request::Mode(ModeRequest::SetMode(DeviceMode::Off)));
    testbench.send_tc(Request::Hk(HkRequestType::OneShot));
    testbench.handler.periodic_operation();
    assert_eq!(testbench.next_response(), Response::Hk(HkSet::default()));
}

#[test]
fn test_periodic_hk() {
    let mut testbench = MgtTestbench::new();
    testbench.send_tc(Request::Hk(HkRequestType::EnablePeriodic(Some(Duration::zero()))));
    testbench.handler.periodic_operation();
    assert!(matches!(testbench.next_response(), Response::Hk(_)));
    let tm = testbench.try_next_response();
    assert!(tm.is_none(), "only one HK packet per cycle expected");

    testbench.send_tc(Request::Hk(HkRequestType::DisablePeriodic));
    testbench.handler.periodic_operation();
    assert!(testbench.try_next_response().is_none());
}

#[test]
fn test_missing_replies_below_threshold_stay_healthy() {
    let mut testbench = MgtTestbench::new();
    testbench.switch_to_normal();
    // One missing reply should not be enough to trip COMM_FAULT_THRESHOLD.
    testbench.handler.periodic_operation();
    assert_eq!(testbench.health(), None);
    assert!(!testbench.handler.hk_set().valid);
}

#[test]
fn test_missing_replies_above_threshold_starts_recovery() {
    let mut testbench = MgtTestbench::new();
    testbench.switch_to_normal();
    testbench.drain_events();
    testbench.exceed_comm_fault_threshold();
    assert_eq!(testbench.health(), Some(HealthState::NeedsRecovery));
    assert!(!testbench.handler.hk_set().valid);
    let events = testbench.drain_events();
    assert!(matches!(
        events[..],
        [Event::CommFaultThresholdExceeded, Event::Recovery(RecoveryEvent::Started)]
    ));
}

#[test]
fn test_invalid_frame_counts_as_comm_fault() {
    let mut testbench = MgtTestbench::new();
    testbench.switch_to_normal();
    testbench.drain_events();
    // Consumed by the outstanding HK poll from switch_to_normal, then two more invalid
    // frames to exceed the threshold.
    for _ in 0..COMM_FAULT_THRESHOLD + 1 {
        testbench.test_interface().replies.push_back(vec![0xff]);
        testbench.handler.periodic_operation();
    }
    assert_eq!(testbench.health(), Some(HealthState::NeedsRecovery));
}

#[test]
fn mgt_test_recovery_power_cycles_device() {
    let mut testbench = MgtTestbench::new();
    testbench.switch_to_normal();
    testbench.drain_events();
    testbench.drain_switch_requests();
    testbench.exceed_comm_fault_threshold();

    testbench.complete_power_cycle();

    assert_eq!(testbench.health(), Some(HealthState::Healthy));
    assert_eq!(
        testbench.drain_switch_requests(),
        [SwitchStateBinary::Off, SwitchStateBinary::On]
    );
    let events = testbench.drain_events();
    assert!(matches!(
        events[..],
        [
            Event::CommFaultThresholdExceeded,
            Event::Recovery(RecoveryEvent::Started),
            Event::Recovery(RecoveryEvent::Done),
        ]
    ));
}

#[test]
fn mgt_test_repeated_recovery_marks_component_faulty() {
    let mut testbench = MgtTestbench::new();
    testbench.switch_to_normal();
    testbench.recover_until_faulty();
    let events = testbench.drain_events();
    assert!(matches!(
        events[..],
        [
            ..,
            Event::CommFaultThresholdExceeded,
            Event::Recovery(RecoveryEvent::ThresholdExceeded)
        ]
    ));
    testbench.drain_switch_requests();

    testbench.handler.periodic_operation();
    assert_eq!(testbench.drain_switch_requests(), [SwitchStateBinary::Off]);
    testbench.set_switch_state(SwitchState::Off);
    testbench.handler.periodic_operation();
    assert_eq!(testbench.handler.mode(), DeviceMode::Off);
    assert_eq!(testbench.health(), Some(HealthState::Faulty));
}

#[test]
fn test_ground_health_override_clears_faulty_state() {
    let mut testbench = MgtTestbench::new();
    testbench.switch_to_normal();
    testbench.recover_until_faulty();
    testbench.set_switch_state(SwitchState::Off);
    testbench.handler.periodic_operation();

    testbench.send_tc(Request::Health(HealthRequest::SetHealth(HealthState::Healthy)));
    testbench.handler.periodic_operation();
    assert_eq!(testbench.next_response(), Response::Success);
    assert_eq!(testbench.health(), Some(HealthState::Healthy));
}

#[test]
fn mgt_test_mode_command_aborts_recovery() {
    let mut testbench = MgtTestbench::new();
    testbench.switch_to_normal();
    testbench.exceed_comm_fault_threshold();
    testbench.handler.periodic_operation();
    testbench.set_switch_state(SwitchState::Off);
    testbench.handler.queue_mode_request(ModeRequest::SetMode(DeviceMode::Off));
    testbench.handler.periodic_operation();
    testbench.handler.periodic_operation();
    assert_eq!(testbench.handler.mode(), DeviceMode::Off);
    assert_eq!(testbench.handler.target_mode(), None);
    assert_eq!(testbench.health(), Some(HealthState::Healthy));
}

#[test]
fn test_replies_arriving_in_time_stay_healthy() {
    let mut testbench = MgtTestbench::new();
    testbench.switch_to_normal();
    // A reply for the outstanding poll arrives before the next poll is sent, every cycle.
    for _ in 0..COMM_FAULT_THRESHOLD + 5 {
        testbench.push_reply(sim_mgt::Reply::Hk(sim_mgt::HkSet {
            dipole: sim_mgt::Dipole::default(),
            torquing: false,
        }));
        testbench.handler.periodic_operation();
    }
    assert_eq!(testbench.health(), None);
    assert!(testbench.handler.hk_set().valid);
}

#[test]
fn ideal_device_torques_for_the_commanded_time() {
    let mut testbench =
        MgtTestbench::with_interface(MgtCommunication::Dummy(DummyInterface::new()));
    testbench.switch_to_normal();
    let dipole = Dipole { x: -200, y: 200, z: 1000 };
    testbench.send_tc(Request::ApplyTorque { dipole, duration: Duration::from_millis(100) });
    let at = |millis: u128| Instant { nanos: 3_600_000_000_000_000 + millis * 1_000_000 };
    testbench.handler.periodic_operation_at(at(0));
    testbench.handler.periodic_operation_at(at(99));
    assert_eq!(testbench.handler.hk_set(), HkSet { valid: true, dipole, torquing: true });
    testbench.handler.periodic_operation_at(at(100));
    testbench.handler.periodic_operation_at(at(101));
    assert_eq!(
        testbench.handler.hk_set(),
        HkSet { valid: true, dipole: Dipole::default(), torquing: false }
    );
    assert_eq!(testbench.handler.fault_count(), 0);
}

#[test]
fn ideal_device_drops_invalid_frames() {
    let mut device = DummyInterface::new();
    let now = Instant { nanos: 0 };
    device.send_at(&[0x02], now);
    assert_eq!(device.try_recv(), None);
    device.send_at(&[0x01], now);
    assert_eq!(device.try_recv(), Some(vec![0x81, 0, 0, 0, 0, 0, 0, 0]));
    assert_eq!(device.try_recv(), None);
}

#[test]
fn simulated_device_is_polled_with_raw_frames() {
    let mut testbench = MgtTestbench::with_interface(MgtCommunication::Sim(SimInterface::new()));
    testbench.switch_to_normal();
    match testbench.handler.com_mut() {
        MgtCommunication::Sim(sim) => {
            assert_eq!(sim.requests[0].request, SimRequest::Mgt(vec![0x01]));
            // A message of another component ends the reception for this cycle.
            sim.replies.push_back(SimReply::from(SimCtrlReply::Pong));
            sim.replies.push_back(SimReply::Mgt(vec![0x81, 0, 1, 0, 2, 0, 3, 0]));
        }
        _ => panic!("unexpected MGT interface"),
    }
    testbench.handler.periodic_operation();
    assert!(!testbench.handler.hk_set().valid);
    assert_eq!(testbench.handler.fault_count(), 1);
    testbench.handler.periodic_operation();
    assert_eq!(
        testbench.handler.hk_set(),
        HkSet { valid: true, dipole: Dipole { x: 1, y: 2, z: 3 }, torquing: false }
    );
}

#[test]
fn ping_is_answered_and_power_cycle_is_hidden() {
    let mut testbench = MgtTestbench::new();
    testbench.switch_to_normal();
    testbench.send_tc(Request::Ping);
    testbench.handler.periodic_operation();
    assert_eq!(
        testbench.handler.take_telemetry(),
        [(Some(tc_id()), Response::Success)]
    );
    testbench.exceed_comm_fault_threshold();
    testbench.set_switch_state(SwitchState::Off);
    testbench.handler.periodic_operation();
    assert_eq!(testbench.handler.mode(), DeviceMode::Off);
    testbench.send_tc(Request::Mode(ModeRequest::ReadMode));
    testbench.handler.periodic_operation();
    assert_eq!(
        testbench.next_response(),
        Response::Mode(ModeResponse::Mode(DeviceMode::Normal))
    );
}

#[test]
fn mode_timeout_is_reported_to_both() {
    let mut testbench = MgtTestbench::new();
    testbench.send_tc(Request::Mode(ModeRequest::SetMode(DeviceMode::On)));
    testbench.handler.periodic_operation_at(Instant { nanos: 0 });
    assert!(testbench.try_next_response().is_none());
    testbench.handler.periodic_operation_at(Instant { nanos: 100_000_000 });
    assert_eq!(testbench.next_response(), Response::Mode(ModeResponse::SetModeTimeout));
    assert_eq!(testbench.handler.take_mode_reports(), [ModeResponse::SetModeTimeout]);
}
