use std::collections::VecDeque;

use satrs_obsw::minisim::acs::{mgm, mgt};
use satrs_obsw::minisim::controller::{SimAction, SimController, ThreadingModel};
use satrs_obsw::minisim::eps::{PcduReply, PcduRequest, SwitchMapBinary};
use satrs_obsw::minisim::models::mgm::MagnetometerModel;
use satrs_obsw::minisim::{
    ComponentId, MonotonicTime, SimCtrlReply, SimCtrlRequest, SimReply, SimRequest,
    SimRequestWithTime,
};
use satrs_obsw::time::Duration;
use satrs_obsw::types::pcdu::{SwitchId, SwitchStateBinary};

const FIELD_LSB_PER_GAUSS_4_SENS: f32 = 1.0 / 6842.0;

#[derive(Debug, Clone, Copy, PartialEq, Eq)]
enum Scheduled {
    ClearTorque,
    SendHk,
}

/// Simulation with a simple event queue.
struct SimTestbench {
    nanos: u128,
    sim_controller: SimController,
    scheduled: Vec<(u128, Scheduled)>,
    replies: VecDeque<SimReply>,
}

impl SimTestbench {
    fn new() -> Self {
        Self {
            nanos: 0,
            sim_controller: SimController::new(),
            scheduled: Vec::new(),
            replies: VecDeque::new(),
        }
    }

    fn modelled_field(&self) -> mgm::SensorValuesMicroTesla {
        let millis = (self.nanos / 1_000_000) as f32;
        let base = 2.0 * std::f32::consts::PI * (millis / 1000.0);
        mgm::SensorValuesMicroTesla {
            x: (30.0 * base.sin()).to_bits(),
            y: (30.0 * (base + 0.1).sin()).to_bits(),
            z: (30.0 * (base + 0.2).sin()).to_bits(),
        }
    }

    fn send_sensor_values(&mut self, model: MagnetometerModel) {
        let field = model.calculate_current_mgm_tuple(self.modelled_field());
        let to_raw = |bits: u32| {
            (f32::from_bits(bits)
                / (mgm::GAUSS_TO_MICROTESLA_FACTOR as f32 * FIELD_LSB_PER_GAUSS_4_SENS))
                .round() as i16
        };
        let raw = mgm::RawValues {
            x: to_raw(field.x),
            y: to_raw(field.y),
            z: to_raw(field.z),
        };
        self.replies.push_back(model.send_sensor_values(field, raw));
    }

    fn send_request(&mut self, request: impl Into<SimRequest>) {
        match self.sim_controller.handle_sim_request(&request.into()) {
            SimAction::Reply(reply) => self.replies.push_back(SimReply::from(reply)),
            SimAction::SendSensorValues(model) => self.send_sensor_values(model),
            SimAction::SendSwitchInfo(switches) => {
                self.replies.push_back(SimReply::from(PcduReply::SwitchInfo(switches)))
            }
            SimAction::ClearTorqueAfter(delay, reply) => {
                if let Some(reply) = reply {
                    self.replies.push_back(SimReply::from(reply));
                }
                self.scheduled.push((self.nanos + delay.nanos, Scheduled::ClearTorque));
            }
            SimAction::SendHkAfter(delay) => {
                self.scheduled.push((self.nanos + delay.nanos, Scheduled::SendHk))
            }
            SimAction::DropFrame(_) | SimAction::NoAction => (),
        }
    }

    /// Runs everything which is scheduled up to the given time.
    fn run_until(&mut self, nanos: u128) {
        loop {
            let next = self.scheduled.iter().map(|(time, _)| *time).min();
            match next {
                Some(time) if time <= nanos => {
                    self.nanos = time;
                    let position =
                        self.scheduled.iter().position(|(at, _)| *at == time).unwrap();
                    match self.scheduled.remove(position).1 {
                        Scheduled::ClearTorque => self.sim_controller.clear_torque(),
                        Scheduled::SendHk => self
                            .replies
                            .push_back(self.sim_controller.send_housekeeping_data()),
                    }
                }
                _ => break,
            }
        }
        self.nanos = nanos;
    }

    fn step(&mut self) {
        if let Some(time) = self.scheduled.iter().map(|(time, _)| *time).min() {
            self.run_until(time);
        }
    }

    fn step_until(&mut self, duration: Duration) {
        self.run_until(self.nanos + duration.nanos);
    }

    fn request_reply(&mut self, request: impl Into<SimRequest>) -> Option<SimReply> {
        self.send_request(request);
        self.step();
        self.replies.pop_front()
    }

    fn switch(&mut self, switch: SwitchId, state: SwitchStateBinary) {
        self.send_request(PcduRequest::SwitchDevice { switch, state });
        self.step();
    }
}

fn mgm_request(id: mgm::Id, request: mgm::Request) -> SimRequest {
    SimRequest::Mgm { id, request }
}

fn request_mgm_reply(sim_testbench: &mut SimTestbench, id: mgm::Id) -> mgm::Reply {
    let reply = sim_testbench
        .request_reply(mgm_request(id, mgm::Request::RequestSensorData))
        .expect("no MGM reply received");
    assert_eq!(reply.component(), id.sim_component());
    match reply {
        SimReply::Mgm { id: reply_id, reply } => {
            assert_eq!(reply_id, id);
            reply
        }
        _ => panic!("failed to deserialize MGM sensor values"),
    }
}

fn inject_spi_fault(sim_testbench: &mut SimTestbench, cleared_by_power_cycle: bool) {
    sim_testbench.send_request(mgm_request(
        mgm::Id::Mgm0,
        mgm::Request::SetSpiFault(mgm::SpiFault {
            mode: mgm::SpiFaultMode::AllOnes,
            cleared_by_power_cycle,
        }),
    ));
    sim_testbench.step();
}

fn is_stuck_bus_reply(reply: &mgm::Reply) -> bool {
    reply.raw.x == -1 && reply.raw.y == -1 && reply.raw.z == -1
}

#[test]
fn test_basic_mgm_request() {
    let mut sim_testbench = SimTestbench::new();
    let reply = request_mgm_reply(&mut sim_testbench, mgm::Id::Mgm0);
    assert_eq!(mgm::Id::Mgm0.sim_component(), ComponentId::Mgm0Lis3Mdl);
    assert_eq!(reply.switch_state, SwitchStateBinary::Off);
    assert_eq!(f32::from_bits(reply.sensor_values.x), 0.0);
    assert_eq!(f32::from_bits(reply.sensor_values.y), 0.0);
    assert_eq!(f32::from_bits(reply.sensor_values.z), 0.0);
}

#[test]
fn test_mgm_spi_fault_injection_all_ones() {
    let mut sim_testbench = SimTestbench::new();
    sim_testbench.switch(SwitchId::Mgm0, SwitchStateBinary::On);
    inject_spi_fault(&mut sim_testbench, false);

    let reply = request_mgm_reply(&mut sim_testbench, mgm::Id::Mgm0);
    // Even though the device is switched on, the injected fault forces a stuck-bus reply.
    assert_eq!(reply.switch_state, SwitchStateBinary::On);
    assert!(is_stuck_bus_reply(&reply));
}

#[test]
fn test_mgm_spi_fault_cleared_by_power_cycle() {
    let mut sim_testbench = SimTestbench::new();
    sim_testbench.switch(SwitchId::Mgm0, SwitchStateBinary::On);
    inject_spi_fault(&mut sim_testbench, true);
    assert!(is_stuck_bus_reply(&request_mgm_reply(&mut sim_testbench, mgm::Id::Mgm0)));

    sim_testbench.switch(SwitchId::Mgm0, SwitchStateBinary::Off);
    sim_testbench.switch(SwitchId::Mgm0, SwitchStateBinary::On);
    sim_testbench.step_until(Duration::from_millis(50));
    assert!(!is_stuck_bus_reply(&request_mgm_reply(&mut sim_testbench, mgm::Id::Mgm0)));
}

#[test]
fn test_mgm_spi_fault_persists_after_power_cycle() {
    let mut sim_testbench = SimTestbench::new();
    sim_testbench.switch(SwitchId::Mgm0, SwitchStateBinary::On);
    inject_spi_fault(&mut sim_testbench, false);

    sim_testbench.switch(SwitchId::Mgm0, SwitchStateBinary::Off);
    sim_testbench.switch(SwitchId::Mgm0, SwitchStateBinary::On);
    let reply = request_mgm_reply(&mut sim_testbench, mgm::Id::Mgm0);
    assert_eq!(reply.switch_state, SwitchStateBinary::On);
    assert!(is_stuck_bus_reply(&reply));
}

#[test]
fn test_basic_mgm_request_switched_on() {
    let mut sim_testbench = SimTestbench::new();
    sim_testbench.switch(SwitchId::Mgm0, SwitchStateBinary::On);

    let first_reply = request_mgm_reply(&mut sim_testbench, mgm::Id::Mgm0);
    sim_testbench.step_until(Duration::from_millis(50));
    let second_reply = request_mgm_reply(&mut sim_testbench, mgm::Id::Mgm0);

    let conv_back = |raw: i16| {
        raw as f32 * FIELD_LSB_PER_GAUSS_4_SENS * mgm::GAUSS_TO_MICROTESLA_FACTOR as f32
    };
    let values = second_reply.sensor_values;
    let diff_x = (f32::from_bits(values.x) - conv_back(second_reply.raw.x)).abs();
    assert!(diff_x < 0.01, "diff x too large: {}", diff_x);
    let diff_y = (f32::from_bits(values.y) - conv_back(second_reply.raw.y)).abs();
    assert!(diff_y < 0.01, "diff y too large: {}", diff_y);
    let diff_z = (f32::from_bits(values.z) - conv_back(second_reply.raw.z)).abs();
    assert!(diff_z < 0.01, "diff z too large: {}", diff_z);
    // Check that the values are changing.
    assert!(first_reply != second_reply);
}

#[test]
fn test_mgm_1_request_switched_on() {
    let mut sim_testbench = SimTestbench::new();
    sim_testbench.switch(SwitchId::Mgm1, SwitchStateBinary::On);

    for id in [mgm::Id::Mgm0, mgm::Id::Mgm1] {
        sim_testbench.send_request(mgm_request(id, mgm::Request::RequestSensorData));
    }
    sim_testbench.step();

    let sim_reply = sim_testbench.replies.pop_front().expect("no MGM0 reply received");
    assert_eq!(sim_reply.component(), ComponentId::Mgm0Lis3Mdl);
    assert!(matches!(
        sim_reply,
        SimReply::Mgm {
            id: mgm::Id::Mgm0,
            reply: mgm::Reply { switch_state: SwitchStateBinary::Off, .. }
        }
    ));
    let sim_reply = sim_testbench.replies.pop_front().expect("no MGM1 reply received");
    assert_eq!(sim_reply.component(), ComponentId::Mgm1Lis3Mdl);
    assert!(matches!(
        sim_reply,
        SimReply::Mgm {
            id: mgm::Id::Mgm1,
            reply: mgm::Reply { switch_state: SwitchStateBinary::On, .. }
        }
    ));
}

fn request_hk(sim_testbench: &mut SimTestbench) -> Option<mgt::HkSet> {
    match sim_testbench.request_reply(mgt::Request::RequestHk)? {
        SimReply::Mgt(frame) => match mgt::Reply::from_frame(&frame) {
            Ok(mgt::Reply::Hk(hk)) => Some(hk),
            reply => panic!("unexpected reply {reply:?}"),
        },
        sim_reply => panic!("unexpected reply {sim_reply:?}"),
    }
}

#[test]
fn test_basic_mgt_request_is_off() {
    let mut sim_testbench = SimTestbench::new();
    assert!(request_hk(&mut sim_testbench).is_none());
}

#[test]
fn test_basic_mgt_request_is_on() {
    let mut sim_testbench = SimTestbench::new();
    sim_testbench.switch(SwitchId::Mgt, SwitchStateBinary::On);
    assert_eq!(
        request_hk(&mut sim_testbench),
        Some(mgt::HkSet { dipole: mgt::Dipole::default(), torquing: false })
    );
}

#[test]
fn test_basic_mgt_request_is_on_and_torquing() {
    let mut sim_testbench = SimTestbench::new();
    sim_testbench.switch(SwitchId::Mgt, SwitchStateBinary::On);
    let commanded_dipole = mgt::Dipole { x: -200, y: 200, z: 1000 };
    sim_testbench.send_request(mgt::Request::ApplyTorque {
        duration: Duration::from_millis(100),
        dipole: commanded_dipole,
    });
    sim_testbench.step_until(Duration::from_millis(5));

    // The command itself is answered first.
    assert_eq!(sim_testbench.replies.pop_front(), Some(SimReply::from(mgt::Reply::Ack)));
    assert_eq!(
        request_hk(&mut sim_testbench),
        Some(mgt::HkSet { dipole: commanded_dipole, torquing: true })
    );
    sim_testbench.step_until(Duration::from_millis(100));
    assert_eq!(
        request_hk(&mut sim_testbench),
        Some(mgt::HkSet { dipole: mgt::Dipole::default(), torquing: false })
    );
    assert!(sim_testbench.replies.is_empty());
}

fn read_mgm_0_field(sim_testbench: &mut SimTestbench) -> mgm::SensorValuesMicroTesla {
    sim_testbench.send_request(mgm_request(mgm::Id::Mgm0, mgm::Request::RequestSensorData));
    match sim_testbench.replies.pop_front().expect("no MGM reply received") {
        SimReply::Mgm { reply, .. } => reply.sensor_values,
        sim_reply => panic!("unexpected reply {sim_reply:?}"),
    }
}

fn start_torquing(sim_testbench: &mut SimTestbench, duration: Duration) {
    sim_testbench.switch(SwitchId::Mgm0, SwitchStateBinary::On);
    sim_testbench.switch(SwitchId::Mgt, SwitchStateBinary::On);
    sim_testbench.send_request(mgt::Request::ApplyTorque {
        duration,
        dipole: mgt::Dipole { x: 1, y: 2, z: 3 },
    });
    assert_eq!(sim_testbench.replies.pop_front(), Some(SimReply::Mgt(vec![0x82])));
    assert_eq!(
        read_mgm_0_field(sim_testbench),
        mgm::SensorValuesMicroTesla::mgt_gen_magnetic_field()
    );
}

#[test]
fn test_mgm_field_cleared_after_torquing() {
    let mut sim_testbench = SimTestbench::new();
    start_torquing(&mut sim_testbench, Duration::from_millis(100));
    sim_testbench.step_until(Duration::from_millis(100));
    assert_ne!(
        read_mgm_0_field(&mut sim_testbench),
        mgm::SensorValuesMicroTesla::mgt_gen_magnetic_field()
    );
}

#[test]
fn test_mgm_field_cleared_by_switching_mgt_off() {
    let mut sim_testbench = SimTestbench::new();
    start_torquing(&mut sim_testbench, Duration::from_millis(100));
    sim_testbench.send_request(PcduRequest::SwitchDevice {
        switch: SwitchId::Mgt,
        state: SwitchStateBinary::Off,
    });
    assert_ne!(
        read_mgm_0_field(&mut sim_testbench),
        mgm::SensorValuesMicroTesla::mgt_gen_magnetic_field()
    );
    assert!(!sim_testbench.sim_controller.mgt.torquing);
}

#[test]
fn unpowered_magnetorquer_does_not_reply() {
    let mut sim_controller = SimController::new();
    let torque = mgt::Request::ApplyTorque {
        duration: Duration::from_millis(7),
        dipole: mgt::Dipole { x: 1, y: 2, z: 3 },
    };
    assert_eq!(
        sim_controller.handle_sim_request(&SimRequest::from(torque)),
        SimAction::ClearTorqueAfter(Duration::from_millis(7), None)
    );
    assert_eq!(
        sim_controller.handle_sim_request(&SimRequest::from(mgt::Request::RequestHk)),
        SimAction::NoAction
    );
}

#[test]
fn test_basic_ping() {
    let mut sim_testbench = SimTestbench::new();
    assert_eq!(
        sim_testbench.request_reply(SimCtrlRequest::Ping),
        Some(SimReply::SimCtrl(SimCtrlReply::Pong))
    );
}

#[test]
fn torquing_magnetorquer_overrides_the_field() {
    let mut sim_testbench = SimTestbench::new();
    sim_testbench.switch(SwitchId::Mgm0, SwitchStateBinary::On);
    let torque = mgt::Request::ApplyTorque {
        duration: Duration::from_millis(100),
        dipole: mgt::Dipole { x: 1, y: 1, z: 1 },
    };
    // A switched off magnetorquer does not generate a field.
    sim_testbench.send_request(torque);
    assert_eq!(sim_testbench.sim_controller.mgm_0.external_mag_field, None);
    sim_testbench.switch(SwitchId::Mgt, SwitchStateBinary::On);
    assert!(sim_testbench.replies.is_empty());
    sim_testbench.send_request(torque);
    assert_eq!(sim_testbench.replies.pop_front(), Some(SimReply::from(mgt::Reply::Ack)));
    let reply = request_mgm_reply(&mut sim_testbench, mgm::Id::Mgm0);
    assert_eq!(f32::from_bits(reply.sensor_values.x), 30.0);
    assert_eq!(f32::from_bits(reply.sensor_values.y), -30.0);
    assert_eq!(f32::from_bits(reply.sensor_values.z), 30.0);
}

#[test]
fn stuck_bus_wins_over_the_measurement() {
    let field = mgm::SensorValuesMicroTesla { x: 1, y: 2, z: 3 };
    let measured = mgm::RawValues { x: 4, y: 5, z: 6 };
    let raw = |state, mode| mgm::Reply::new(state, field, measured, mode).raw;
    let on = SwitchStateBinary::On;
    let off = SwitchStateBinary::Off;
    assert_eq!(raw(on, mgm::SpiFaultMode::NoFault), measured);
    assert_eq!(raw(off, mgm::SpiFaultMode::NoFault), mgm::RawValues::splat(-1));
    assert_eq!(raw(on, mgm::SpiFaultMode::AllZeros), mgm::RawValues::splat(0));
    assert_eq!(raw(off, mgm::SpiFaultMode::AllZeros), mgm::RawValues::splat(0));
    assert_eq!(raw(on, mgm::SpiFaultMode::AllOnes), mgm::RawValues::splat(-1));
}

#[test]
fn requests_are_handled_in_order() {
    let torque = mgt::Request::ApplyTorque {
        duration: Duration::from_millis(7),
        dipole: mgt::Dipole { x: 1, y: 2, z: 3 },
    };
    let requests = vec![
        SimRequestWithTime::new_with_epoch_time(SimRequest::from(PcduRequest::RequestSwitchInfo)),
        SimRequestWithTime::new(
            SimRequest::Mgt(vec![0x55]),
            MonotonicTime { secs: 1, subsec_nanos: 2 },
        ),
        SimRequestWithTime::new_with_epoch_time(SimRequest::from(mgt::Request::RequestHk)),
        SimRequestWithTime::new_with_epoch_time(SimRequest::from(PcduRequest::SwitchDevice {
            switch: SwitchId::Mgt,
            state: SwitchStateBinary::On,
        })),
        SimRequestWithTime::new_with_epoch_time(SimRequest::from(mgt::Request::RequestHk)),
        SimRequestWithTime::new_with_epoch_time(SimRequest::from(torque)),
        SimRequestWithTime::new_with_epoch_time(mgm_request(
            mgm::Id::Mgm1,
            mgm::Request::RequestSensorData,
        )),
    ];
    let mut exposed = MagnetometerModel::new(mgm::Id::Mgm1, Duration::from_millis(50));
    exposed.apply_external_magnetic_field(
        mgm::SensorValuesMicroTesla::mgt_gen_magnetic_field(),
    );
    let mut sim_controller = SimController::new();
    assert_eq!(
        sim_controller.handle_sim_requests(&requests),
        [
            SimAction::SendSwitchInfo(SwitchMapBinary {
                mgm0: Some(SwitchStateBinary::Off),
                mgm1: Some(SwitchStateBinary::Off),
                mgt: Some(SwitchStateBinary::Off),
            }),
            SimAction::DropFrame(mgt::FrameError::UnknownPacketId(0x55)),
            // The device is still switched off.
            SimAction::NoAction,
            SimAction::NoAction,
            SimAction::SendHkAfter(Duration::from_millis(15)),
            SimAction::ClearTorqueAfter(Duration::from_millis(7), Some(mgt::Reply::Ack)),
            SimAction::SendSensorValues(exposed),
        ]
    );
    assert_eq!(sim_controller.mgt.torque_dipole, mgt::Dipole { x: 1, y: 2, z: 3 });
    assert!(sim_controller.mgt.torquing);
    sim_controller.clear_torque();
    assert!(!sim_controller.mgt.torquing);
    // The field ends with the torque.
    exposed.clear_external_magnetic_field();
    assert_eq!(sim_controller.mgm_1, exposed);
    assert_eq!(sim_controller.mgm_0.external_mag_field, None);
}

#[test]
fn switches_only_change_their_device() {
    let mut sim_testbench = SimTestbench::new();
    let mut expected = SwitchMapBinary {
        mgm0: Some(SwitchStateBinary::Off),
        mgm1: Some(SwitchStateBinary::Off),
        mgt: Some(SwitchStateBinary::Off),
    };
    for switch in [SwitchId::Mgm1, SwitchId::Mgt, SwitchId::Mgm0] {
        sim_testbench.switch(switch, SwitchStateBinary::On);
        match switch {
            SwitchId::Mgm0 => expected.mgm0 = Some(SwitchStateBinary::On),
            SwitchId::Mgm1 => expected.mgm1 = Some(SwitchStateBinary::On),
            SwitchId::Mgt => expected.mgt = Some(SwitchStateBinary::On),
        }
        assert_eq!(
            sim_testbench.request_reply(PcduRequest::RequestSwitchInfo),
            Some(SimReply::Pcdu(PcduReply::SwitchInfo(expected)))
        );
    }
}

#[test]
fn single_threading_uses_one_thread() {
    assert_eq!(ThreadingModel::Single.num_threads(), Some(1));
    assert_eq!(ThreadingModel::Default.num_threads(), None);
}
