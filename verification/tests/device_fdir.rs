use satrs_obsw::device_fdir::{DeviceFdir, FdirEvent, RECOVERY_THRESHOLD};
use satrs_obsw::device_mode::{ModeTransitionEvent, SwitchAndModeHelper};
use satrs_obsw::eps::{PowerSwitchHelper, SwitchSet};
use satrs_obsw::fdir::{FaultCounterStd, RecoveryEvent};
use satrs_obsw::health::{HealthState, HealthTableMap};
use satrs_obsw::time::{Duration, Instant};
use satrs_obsw::types::pcdu::{SwitchId, SwitchState};
use satrs_obsw::types::{ComponentId, DeviceMode};

struct Testbench {
    fdir: DeviceFdir,
    modes: SwitchAndModeHelper<DeviceMode>,
}

impl Testbench {
    fn new(mode: DeviceMode) -> Self {
        Self {
            fdir: DeviceFdir::new(
                "MGM 0",
                ComponentId::AcsMgm0,
                HealthTableMap::new(),
                FaultCounterStd::new(2, Duration::from_secs(30)),
            ),
            modes: SwitchAndModeHelper::new(
                mode,
                Duration::from_millis(100),
                PowerSwitchHelper::new(SwitchSet::new(SwitchState::On)),
                SwitchId::Mgm0,
            ),
        }
    }

    fn exceed_threshold(&mut self) {
        for _ in 0..3 {
            self.fdir.register_fault(&mut self.modes);
        }
    }

    fn events(&mut self) -> Vec<FdirEvent> {
        let mut events = Vec::new();
        while let Some(event) = self.fdir.next_event() {
            events.push(event);
        }
        events
    }
}

const STARTED: FdirEvent = FdirEvent::Recovery(RecoveryEvent::Started);

#[test]
fn tolerated_faults_are_only_counted() {
    let mut tb = Testbench::new(DeviceMode::Normal);
    tb.fdir.register_fault(&mut tb.modes);
    tb.fdir.register_fault(&mut tb.modes);
    assert_eq!(tb.fdir.fault_count(), 2);
    assert_eq!(tb.fdir.health(), None);
    assert!(!tb.modes.power_cycle_active());
    assert!(tb.events().is_empty());
    assert_eq!(tb.fdir.name(), "MGM 0");
}

#[test]
fn exceeded_threshold_starts_power_cycle() {
    let mut tb = Testbench::new(DeviceMode::Normal);
    tb.exceed_threshold();
    assert_eq!(tb.fdir.fault_count(), 0);
    assert_eq!(tb.fdir.health(), Some(HealthState::NeedsRecovery));
    assert!(tb.modes.power_cycle_active());
    assert_eq!(tb.modes.reported_mode(), DeviceMode::Normal);
    assert_eq!(tb.events(), [FdirEvent::FaultThresholdExceeded, STARTED]);
    // Faults during the recovery are not escalated.
    tb.exceed_threshold();
    assert!(tb.events().is_empty());
}

#[test]
fn faults_are_forgotten_after_successes() {
    let mut tb = Testbench::new(DeviceMode::Normal);
    tb.fdir.register_fault_at(&mut tb.modes, Instant { nanos: 0 });
    tb.fdir.register_success_at(Instant { nanos: 29_999_999_999 });
    assert_eq!(tb.fdir.fault_count(), 1);
    tb.fdir.register_success_at(Instant { nanos: 30_000_000_000 });
    assert_eq!(tb.fdir.fault_count(), 0);
}

#[test]
fn power_cycle_done_makes_healthy() {
    let mut tb = Testbench::new(DeviceMode::Normal);
    tb.exceed_threshold();
    tb.events();
    tb.fdir.register_fault(&mut tb.modes);
    tb.fdir.handle_power_cycle_done();
    assert_eq!(tb.fdir.fault_count(), 0);
    assert_eq!(tb.fdir.health(), Some(HealthState::Healthy));
    assert_eq!(tb.events(), [FdirEvent::Recovery(RecoveryEvent::Done)]);
}

#[test]
fn failed_power_cycles_use_up_attempts() {
    let mut tb = Testbench::new(DeviceMode::Normal);
    tb.exceed_threshold();
    tb.events();
    for _ in 1..RECOVERY_THRESHOLD {
        tb.fdir.handle_power_cycle_failed(&mut tb.modes, DeviceMode::Normal);
        assert_eq!(tb.events(), [FdirEvent::Recovery(RecoveryEvent::Failed), STARTED]);
        assert!(tb.modes.power_cycle_active());
    }
    tb.fdir.handle_power_cycle_failed(&mut tb.modes, DeviceMode::Normal);
    assert_eq!(
        tb.events(),
        [
            FdirEvent::Recovery(RecoveryEvent::Failed),
            FdirEvent::Recovery(RecoveryEvent::ThresholdExceeded)
        ]
    );
    assert_eq!(tb.fdir.health(), Some(HealthState::Faulty));
    assert_eq!(tb.modes.target(), Some(DeviceMode::Off));
    // A failure which ground is in charge of has no further effect.
    tb.fdir.handle_power_cycle_failed(&mut tb.modes, DeviceMode::Normal);
    assert_eq!(tb.events(), [FdirEvent::Recovery(RecoveryEvent::Failed)]);
}

#[test]
fn health_triggers_recovery() {
    let mut tb = Testbench::new(DeviceMode::On);
    tb.fdir.set_health(HealthState::NeedsRecovery);
    tb.fdir.periodic_operation(&mut tb.modes);
    assert_eq!(tb.events(), [STARTED]);
    assert_eq!(tb.modes.reported_mode(), DeviceMode::On);

    let mut tb = Testbench::new(DeviceMode::Off);
    tb.fdir.set_health(HealthState::NeedsRecovery);
    tb.fdir.periodic_operation(&mut tb.modes);
    assert!(tb.events().is_empty());
    assert_eq!(tb.fdir.health(), Some(HealthState::Healthy));
}

#[test]
fn mode_command_ends_recovery() {
    let mut tb = Testbench::new(DeviceMode::Normal);
    tb.exceed_threshold();
    tb.fdir.handle_mode_command(&tb.modes);
    tb.modes.start_transition(DeviceMode::On, None);
    assert_eq!(tb.fdir.health(), Some(HealthState::Healthy));
    tb.fdir.periodic_operation(&mut tb.modes);
    assert_eq!(tb.modes.handle_mode_transition(), Some(ModeTransitionEvent::Reached(None)));
    tb.fdir.periodic_operation(&mut tb.modes);
    assert!(!tb.modes.power_cycle_active());
}

#[test]
fn device_stays_off_for_half_a_second() {
    let mut tb = Testbench::new(DeviceMode::Normal);
    let start = Instant { nanos: 0 };
    for _ in 0..3 {
        tb.fdir.register_fault_at(&mut tb.modes, start);
    }
    tb.modes.set_switch_set(SwitchSet::new(SwitchState::Off));
    tb.modes.handle_mode_transition_at(start);
    assert_eq!(tb.modes.target(), None);
    tb.modes.handle_mode_transition_at(Instant { nanos: 499_999_999 });
    assert_eq!(tb.modes.target(), None);
    tb.modes.handle_mode_transition_at(Instant { nanos: 500_000_000 });
    assert_eq!(tb.modes.target(), Some(DeviceMode::Normal));
}

#[test]
fn parts_of_different_age_work_together() {
    let mut modes = SwitchAndModeHelper::new(
        DeviceMode::Normal,
        Duration::from_millis(2000),
        PowerSwitchHelper::new(SwitchSet::new(SwitchState::On)),
        SwitchId::Mgm0,
    );
    let start = std::time::Instant::now();
    while start.elapsed() < std::time::Duration::from_millis(2500) {}
    let mut tb = Testbench::new(DeviceMode::Normal);
    for _ in 0..3 {
        tb.fdir.register_fault(&mut modes);
    }
    assert!(modes.power_cycle_active());
    // The power cycle just started, so it did not time out.
    assert_eq!(modes.handle_mode_transition(), None);
    assert!(modes.power_cycle_active());
}
