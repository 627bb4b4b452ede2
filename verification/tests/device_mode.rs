use satrs_obsw::device_mode::{ModeTransitionEvent, PowerSwitchedMode, SwitchAndModeHelper};
use satrs_obsw::eps::{PowerSwitchHelper, SwitchSet};
use satrs_obsw::time::{Duration, Instant};
use satrs_obsw::types::ccsds::{CcsdsPacketIdAndPsc, SpacePacketHeader};
use satrs_obsw::types::pcdu::{SwitchId, SwitchState, SwitchStateBinary};
use satrs_obsw::types::DeviceMode;

fn timeout() -> Duration {
    Duration::from_millis(50)
}

fn at_millis(millis: u128) -> Instant {
    Instant { nanos: millis * 1_000_000 }
}

struct Testbench {
    helper: SwitchAndModeHelper<DeviceMode>,
}

impl Testbench {
    fn new() -> Self {
        Self {
            helper: SwitchAndModeHelper::new(
                DeviceMode::Off,
                timeout(),
                PowerSwitchHelper::new(SwitchSet::new(SwitchState::Off)),
                SwitchId::Mgm0,
            ),
        }
    }

    fn set_switch_state(&mut self, state: SwitchState) {
        let mut switch_set = self.helper.switch_set();
        switch_set.set_switch_state(SwitchId::Mgm0, state);
        self.helper.set_switch_set(switch_set);
    }

    fn switch_requests(&mut self) -> Vec<SwitchStateBinary> {
        self.helper.take_switch_requests().iter().map(|req| req.target_state).collect()
    }

    /// Drives a transition to `Normal` to completion.
    fn switch_to_normal(&mut self) {
        self.helper.start_transition(DeviceMode::Normal, None);
        self.set_switch_state(SwitchState::On);
        assert!(matches!(
            self.helper.handle_mode_transition(),
            Some(ModeTransitionEvent::Reached(None))
        ));
        self.switch_requests();
    }

    /// Starts a power cycle from `Normal` and drives it until the device is off.
    fn power_cycle_until_off(&mut self, off_duration: Duration) {
        self.switch_to_normal();
        self.helper.start_power_cycle(DeviceMode::Normal, off_duration);
        assert!(self.helper.handle_mode_transition().is_none());
        assert_eq!(self.switch_requests(), [SwitchStateBinary::Off]);
        self.set_switch_state(SwitchState::Off);
        assert!(self.helper.handle_mode_transition().is_none());
        assert_eq!(self.helper.mode(), DeviceMode::Off);
    }
}

fn tc_id() -> CcsdsPacketIdAndPsc {
    CcsdsPacketIdAndPsc::new_from_ccsds_packet(&SpacePacketHeader {
        version: 0,
        packet_id: 1,
        psc: 0xc000,
        data_len: 0,
    })
}

#[test]
fn test_no_transition() {
    let mut tb = Testbench::new();
    assert_eq!(tb.helper.mode(), DeviceMode::Off);
    assert_eq!(tb.helper.target(), None);
    assert!(tb.helper.handle_mode_transition().is_none());
    assert!(tb.switch_requests().is_empty());
    assert!(!tb.helper.power_cycle_active());
    assert_eq!(tb.helper.reported_mode(), DeviceMode::Off);
}

#[test]
fn test_switch_on() {
    let mut tb = Testbench::new();
    tb.helper.start_transition(DeviceMode::Normal, Some(tc_id()));
    assert!(tb.helper.handle_mode_transition().is_none());
    assert_eq!(tb.switch_requests(), [SwitchStateBinary::On]);
    assert_eq!(tb.helper.mode(), DeviceMode::Off);
    assert_eq!(tb.helper.target(), Some(DeviceMode::Normal));

    tb.set_switch_state(SwitchState::On);
    match tb.helper.handle_mode_transition() {
        Some(ModeTransitionEvent::Reached(Some(id))) => assert_eq!(id, tc_id()),
        _ => panic!("expected mode reached event with TC commander"),
    }
    assert_eq!(tb.helper.mode(), DeviceMode::Normal);
    assert_eq!(tb.helper.target(), None);
    assert!(tb.switch_requests().is_empty());
}

#[test]
fn test_switch_off() {
    let mut tb = Testbench::new();
    tb.switch_to_normal();
    tb.helper.start_transition(DeviceMode::Off, None);
    assert!(tb.helper.handle_mode_transition().is_none());
    assert_eq!(tb.switch_requests(), [SwitchStateBinary::Off]);
    tb.set_switch_state(SwitchState::Off);
    assert!(matches!(
        tb.helper.handle_mode_transition(),
        Some(ModeTransitionEvent::Reached(None))
    ));
    assert_eq!(tb.helper.mode(), DeviceMode::Off);
}

#[test]
fn test_switch_already_in_target_state() {
    let mut tb = Testbench::new();
    tb.set_switch_state(SwitchState::On);
    tb.helper.start_transition(DeviceMode::On, None);
    assert!(matches!(
        tb.helper.handle_mode_transition(),
        Some(ModeTransitionEvent::Reached(None))
    ));
    // The switch command is still sent.
    assert_eq!(tb.switch_requests(), [SwitchStateBinary::On]);
    assert_eq!(tb.helper.mode(), DeviceMode::On);
}

#[test]
fn test_switch_timeout() {
    let mut tb = Testbench::new();
    tb.helper.start_transition_at(DeviceMode::Normal, Some(tc_id()), at_millis(7));
    assert!(tb.helper.handle_mode_transition_at(at_millis(7)).is_none());
    assert!(tb.helper.handle_mode_transition_at(at_millis(56)).is_none());
    match tb.helper.handle_mode_transition_at(at_millis(57)) {
        Some(ModeTransitionEvent::Failed(Some(id))) => assert_eq!(id, tc_id()),
        _ => panic!("expected mode failed event with TC commander"),
    }
    assert_eq!(tb.helper.mode(), DeviceMode::Off);
    assert_eq!(tb.helper.target(), None);
}

#[test]
fn test_power_cycle() {
    let mut tb = Testbench::new();
    tb.power_cycle_until_off(Duration::zero());
    assert!(tb.helper.power_cycle_active());

    // The off duration elapsed, so switching on starts right away.
    assert!(tb.helper.handle_mode_transition().is_none());
    assert_eq!(tb.switch_requests(), [SwitchStateBinary::On]);
    assert_eq!(tb.helper.target(), Some(DeviceMode::Normal));
    tb.set_switch_state(SwitchState::On);
    assert!(matches!(
        tb.helper.handle_mode_transition(),
        Some(ModeTransitionEvent::PowerCycleDone)
    ));
    assert_eq!(tb.helper.mode(), DeviceMode::Normal);
    assert!(!tb.helper.power_cycle_active());
}

#[test]
fn test_power_cycle_reports_restored_mode() {
    let mut tb = Testbench::new();
    tb.switch_to_normal();
    tb.helper.start_power_cycle(DeviceMode::Normal, Duration::from_secs(60));
    assert_eq!(tb.helper.reported_mode(), DeviceMode::Normal);
    tb.helper.handle_mode_transition();
    tb.set_switch_state(SwitchState::Off);
    tb.helper.handle_mode_transition();
    assert_eq!(tb.helper.mode(), DeviceMode::Off);
    assert_eq!(tb.helper.reported_mode(), DeviceMode::Normal);
}

#[test]
fn test_power_cycle_reports_restored_mode_while_switching_on() {
    let mut tb = Testbench::new();
    tb.power_cycle_until_off(Duration::zero());
    assert!(tb.helper.handle_mode_transition().is_none());
    assert_eq!(tb.helper.target(), Some(DeviceMode::Normal));
    assert_eq!(tb.helper.mode(), DeviceMode::Off);
    assert_eq!(tb.helper.reported_mode(), DeviceMode::Normal);
}

#[test]
fn test_power_cycle_waits_off_duration() {
    let mut tb = Testbench::new();
    tb.power_cycle_until_off(Duration::from_secs(60));
    for _ in 0..3 {
        assert!(tb.helper.handle_mode_transition().is_none());
    }
    assert!(tb.switch_requests().is_empty());
    assert_eq!(tb.helper.target(), None);
    assert!(tb.helper.power_cycle_active());
}

#[test]
fn power_cycle_waits_exactly_the_off_duration() {
    let mut tb = Testbench::new();
    tb.helper.start_power_cycle_at(DeviceMode::On, Duration::from_millis(500), at_millis(0));
    assert!(tb.helper.handle_mode_transition_at(at_millis(10)).is_none());
    assert_eq!(tb.switch_requests(), [SwitchStateBinary::Off]);
    assert!(tb.helper.handle_mode_transition_at(at_millis(509)).is_none());
    assert!(tb.switch_requests().is_empty());
    assert!(tb.helper.handle_mode_transition_at(at_millis(510)).is_none());
    assert_eq!(tb.switch_requests(), [SwitchStateBinary::On]);
}

#[test]
fn test_power_cycle_switch_off_timeout() {
    let mut tb = Testbench::new();
    tb.switch_to_normal();
    tb.helper.start_power_cycle_at(DeviceMode::Normal, Duration::zero(), at_millis(0));
    assert!(tb.helper.handle_mode_transition_at(at_millis(0)).is_none());
    assert!(matches!(
        tb.helper.handle_mode_transition_at(at_millis(50)),
        Some(ModeTransitionEvent::PowerCycleFailed { restore_mode: DeviceMode::Normal })
    ));
    assert_eq!(tb.helper.mode(), DeviceMode::Normal);
    assert!(!tb.helper.power_cycle_active());
}

#[test]
fn test_power_cycle_switch_on_timeout() {
    let mut tb = Testbench::new();
    tb.switch_to_normal();
    tb.helper.start_power_cycle_at(DeviceMode::Normal, Duration::zero(), at_millis(0));
    tb.set_switch_state(SwitchState::Off);
    assert!(tb.helper.handle_mode_transition_at(at_millis(0)).is_none());
    assert!(tb.helper.handle_mode_transition_at(at_millis(0)).is_none());
    assert!(matches!(
        tb.helper.handle_mode_transition_at(at_millis(50)),
        Some(ModeTransitionEvent::PowerCycleFailed { restore_mode: DeviceMode::Normal })
    ));
    assert_eq!(tb.helper.mode(), DeviceMode::Off);
    assert!(!tb.helper.power_cycle_active());
    // The failed power cycle is not hidden anymore.
    assert_eq!(tb.helper.reported_mode(), DeviceMode::Off);
}

#[test]
fn test_transition_aborts_power_cycle() {
    let mut tb = Testbench::new();
    tb.power_cycle_until_off(Duration::from_secs(60));
    tb.helper.start_transition(DeviceMode::On, Some(tc_id()));
    assert!(!tb.helper.power_cycle_active());
    assert_eq!(tb.helper.reported_mode(), DeviceMode::Off);
    tb.set_switch_state(SwitchState::On);
    // A regular transition event instead of a power cycle event.
    assert!(matches!(
        tb.helper.handle_mode_transition(),
        Some(ModeTransitionEvent::Reached(Some(_)))
    ));
    assert_eq!(tb.helper.mode(), DeviceMode::On);
}

#[test]
fn only_off_needs_no_power() {
    assert_eq!(DeviceMode::OFF, DeviceMode::Off);
    assert!(!DeviceMode::Off.requires_power());
    assert!(DeviceMode::On.requires_power());
    assert!(DeviceMode::Normal.requires_power());
}

#[test]
fn switches_are_independent() {
    let mut set = SwitchSet::new(SwitchState::Unknown);
    set.set_switch_state(SwitchId::Mgt, SwitchState::On);
    set.set_switch_state(SwitchId::Mgm1, SwitchState::Faulty);
    assert_eq!(set.switch_state(SwitchId::Mgm0), SwitchState::Unknown);
    assert_eq!(set.switch_state(SwitchId::Mgm1), SwitchState::Faulty);
    assert_eq!(set.switch_state(SwitchId::Mgt), SwitchState::On);
    let helper = PowerSwitchHelper::new(set);
    assert!(helper.is_switch_on(SwitchId::Mgt));
    assert!(!helper.is_switch_on(SwitchId::Mgm1));
}
