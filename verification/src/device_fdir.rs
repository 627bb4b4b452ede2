//! Fault counting and power cycle recovery of devices.

use std::collections::VecDeque;
use vstd::prelude::*;

use crate::device_mode::{ModeModel, SwitchAndModeHelper};
use crate::fdir::{
    CounterModel, FaultCounterStd, FaultResponse, RecoveryEvent, RecoveryFdir, RecoveryModel,
};
use crate::health::{HealthState, HealthTableMap, HealthTableProvider, RawComponentId};
use crate::time::{Clock, Duration, Instant};
use crate::types::{ComponentId, DeviceMode};

verus! {

/// The component is marked faulty if it would be recovered more often than this before the
/// counter is decremented again.
pub const RECOVERY_THRESHOLD: u32 = 2;

/// Time after which a recovery is forgotten, in seconds.
pub const RECOVERY_DECREMENT_AFTER: u64 = 60;

/// Time the device stays unpowered during a power cycle, so it can fully discharge, in
/// milliseconds.
pub const RECOVERY_OFF_DURATION: u64 = 500;

/// Generic FDIR events. The device handler maps them to its own event type.
#[derive(Debug, Clone, Copy, PartialEq, Eq, Structural)]
pub enum FdirEvent {
    FaultThresholdExceeded,
    Recovery(RecoveryEvent),
}

/// The device is power cycled or switched off after one of these events.
pub open spec fn power_is_lost(events: Seq<FdirEvent>) -> bool {
    events.contains(FdirEvent::Recovery(RecoveryEvent::Started)) || events.contains(
        FdirEvent::Recovery(RecoveryEvent::ThresholdExceeded),
    )
}

/// The device loses its power if the first event or one of the other ones says so.
pub proof fn lemma_power_is_lost(events: Seq<FdirEvent>)
    requires
        events.len() > 0,
    ensures
        events == seq![events[0]] + events.drop_first(),
        power_is_lost(events) == (power_is_lost(seq![events[0]]) || power_is_lost(
            events.drop_first(),
        )),
        power_is_lost(seq![events[0]]) == (events[0] == FdirEvent::Recovery(RecoveryEvent::Started)
            || events[0] == FdirEvent::Recovery(RecoveryEvent::ThresholdExceeded)),
{
    let rest = events.drop_first();
    let first = seq![events[0]];
    assert(events =~= first + rest);
    assert forall|event: FdirEvent| #[trigger]
        events.contains(event) == (first.contains(event) || rest.contains(event)) by {
        if events.contains(event) {
            let i = choose|i: int| 0 <= i < events.len() && events[i] == event;
            if i > 0 {
                assert(rest[i - 1] == event);
            } else {
                assert(first[0] == event);
            }
        }
        if first.contains(event) {
            assert(events[0] == event);
        }
        if rest.contains(event) {
            let i = choose|i: int| 0 <= i < rest.len() && rest[i] == event;
            assert(events[i + 1] == event);
        }
    }
    assert forall|event: FdirEvent|
        #[trigger] first.contains(event) == (events[0] == event) by {
        assert(first[0] == events[0]);
    }
}

/// Mathematical model of the [DeviceFdir].
pub struct FdirModel {
    /// Name of the device.
    pub name: Seq<char>,
    /// Counts the faults of the device.
    pub counter: CounterModel,
    /// Health and recoveries of the component.
    pub recovery: RecoveryModel,
    /// Time which the device stays off in a power cycle, in nanoseconds.
    pub off_duration: nat,
    /// Events which were not retrieved yet.
    pub events: Seq<FdirEvent>,
    /// Clock which tells the time of faults.
    pub clock: Clock,
}

impl FdirModel {
    /// FDIR of a component without recoveries and events.
    pub open spec fn fresh(
        name: Seq<char>,
        id: RawComponentId,
        entries: Map<RawComponentId, HealthState>,
        counter: CounterModel,
        clock: Clock,
    ) -> FdirModel {
        FdirModel {
            name,
            counter,
            recovery: RecoveryModel {
                id,
                entries,
                counter: CounterModel::fresh(2, 60_000_000_000),
                clock,
            },
            off_duration: 500_000_000,
            events: Seq::empty(),
            clock,
        }
    }

    /// The number of recoveries never exceeds its threshold.
    pub open spec fn inv(self) -> bool {
        &&& self.recovery.counter.failure_threshold == RECOVERY_THRESHOLD
        &&& self.recovery.counter.fault_count <= self.recovery.counter.failure_threshold
    }

    /// An event is queued.
    pub open spec fn with_event(self, event: FdirEvent) -> FdirModel {
        FdirModel { events: self.events.push(event), ..self }
    }

    /// The communication with the device worked.
    pub open spec fn after_success(self, now: nat) -> FdirModel {
        FdirModel { counter: self.counter.decremented(now), ..self }
    }

    /// A mode command is about to be executed.
    pub open spec fn after_mode_command(self, modes: ModeModel<DeviceMode>) -> FdirModel {
        if modes.power_cycle_active() {
            FdirModel { recovery: self.recovery.after_recovery_done(), ..self }
        } else {
            self
        }
    }

    /// The power cycle completed.
    pub open spec fn after_power_cycle_done(self) -> FdirModel {
        FdirModel {
            counter: self.counter.cleared(),
            recovery: self.recovery.after_recovery_done(),
            ..self
        }.with_event(FdirEvent::Recovery(RecoveryEvent::Done))
    }
}

/// Mathematical model of a device with its FDIR.
pub struct SupervisedModel {
    pub fdir: FdirModel,
    pub modes: ModeModel<DeviceMode>,
}

impl SupervisedModel {
    /// A power cycle to `restore_mode` starts.
    pub open spec fn recovery_started(self, restore_mode: DeviceMode, now: nat) -> SupervisedModel {
        SupervisedModel {
            fdir: self.fdir.with_event(FdirEvent::Recovery(RecoveryEvent::Started)),
            modes: self.modes.power_cycle_started(restore_mode, self.fdir.off_duration, now),
        }
    }

    /// A recovery is needed and the device is not in a transition.
    pub open spec fn ready_for_recovery(self) -> bool {
        &&& self.fdir.recovery.needs_recovery()
        &&& !self.modes.power_cycle_active()
        &&& self.modes.target is None
    }

    /// A power cycle starts if one is needed. There is nothing to do for a device which is off.
    pub open spec fn recovery_checked(self, now: nat) -> SupervisedModel {
        if !self.ready_for_recovery() {
            self
        } else if self.modes.current == DeviceMode::Off {
            SupervisedModel {
                fdir: FdirModel {
                    recovery: self.fdir.recovery.after_recovery_done(),
                    ..self.fdir
                },
                ..self
            }
        } else {
            self.recovery_started(self.modes.current, now)
        }
    }

    /// A faulty device is switched off, unless that is already going on.
    pub open spec fn switched_off(self, now: nat) -> SupervisedModel {
        if self.modes.target == Some(DeviceMode::Off) {
            self
        } else {
            SupervisedModel {
                modes: self.modes.transition_started(DeviceMode::Off, None, now),
                ..self
            }
        }
    }

    /// The component was recovered too often.
    pub open spec fn given_up(self, now: nat) -> SupervisedModel {
        SupervisedModel {
            fdir: self.fdir.with_event(FdirEvent::Recovery(RecoveryEvent::ThresholdExceeded)),
            ..self
        }.switched_off(now)
    }

    /// One cycle. `now` is a reading of the clock of the FDIR, and `mode_now` one of the clock of
    /// the mode helper.
    pub open spec fn cycled_by(self, now: nat, mode_now: nat) -> SupervisedModel {
        SupervisedModel {
            fdir: FdirModel { recovery: self.fdir.recovery.after_time(now), ..self.fdir },
            ..self
        }.recovery_checked(mode_now)
    }

    /// One cycle, with one clock for everything.
    pub open spec fn cycled(self, now: nat) -> SupervisedModel {
        self.cycled_by(now, now)
    }

    /// The fault is counted.
    pub open spec fn fault_counted(self, now: nat) -> SupervisedModel {
        SupervisedModel {
            fdir: FdirModel {
                counter: self.fdir.counter.incremented(now).checked(),
                ..self.fdir
            },
            ..self
        }
    }

    /// The fault threshold was exceeded, which is escalated. The readings are those of
    /// [Self::cycled_by].
    pub open spec fn fault_escalated(self, now: nat, mode_now: nat) -> SupervisedModel {
        let response = self.fdir.recovery.fault_response();
        let escalated = SupervisedModel {
            fdir: FdirModel { recovery: self.fdir.recovery.after_fault(now), ..self.fdir },
            ..self
        };
        let announced = SupervisedModel {
            fdir: escalated.fdir.with_event(FdirEvent::FaultThresholdExceeded),
            ..escalated
        };
        match response {
            FaultResponse::Ignored => escalated,
            FaultResponse::Recover => announced.recovery_checked(mode_now),
            FaultResponse::SetFaulty => announced.given_up(mode_now),
        }
    }

    /// The communication with the device failed. The readings are those of [Self::cycled_by].
    pub open spec fn after_fault_by(self, now: nat, mode_now: nat) -> SupervisedModel {
        if self.fdir.counter.incremented(now).exceeded() {
            self.fault_counted(now).fault_escalated(now, mode_now)
        } else {
            self.fault_counted(now)
        }
    }

    /// The communication with the device failed, with one clock for everything.
    pub open spec fn after_fault(self, now: nat) -> SupervisedModel {
        self.after_fault_by(now, now)
    }

    /// The power cycle to `restore_mode` failed. The readings are those of [Self::cycled_by].
    pub open spec fn after_power_cycle_failed_by(
        self,
        restore_mode: DeviceMode,
        now: nat,
        mode_now: nat,
    ) -> SupervisedModel {
        let response = self.fdir.recovery.recovery_failed_response();
        let escalated = SupervisedModel {
            fdir: FdirModel {
                recovery: self.fdir.recovery.after_recovery_failed(now),
                ..self.fdir
            }.with_event(FdirEvent::Recovery(RecoveryEvent::Failed)),
            ..self
        };
        match response {
            FaultResponse::Recover => escalated.recovery_started(restore_mode, mode_now),
            FaultResponse::SetFaulty => escalated.given_up(mode_now),
            FaultResponse::Ignored => escalated,
        }
    }

    /// The power cycle to `restore_mode` failed, with one clock for everything.
    pub open spec fn after_power_cycle_failed(
        self,
        restore_mode: DeviceMode,
        now: nat,
    ) -> SupervisedModel {
        self.after_power_cycle_failed_by(restore_mode, now, now)
    }
}

/// Fault counting and power cycle recovery for device handlers which own the power switch of
/// their device.
///
/// The handler detects faults itself and reports them with [Self::register_fault]. This helper
/// then decides whether the device is power cycled, or marked faulty and switched off, and drives
/// the [SwitchAndModeHelper] of the handler accordingly. The handler retrieves the resulting
/// events with [Self::next_event].
///
/// Every operation which needs the time exists twice: once reading the clocks of the fault
/// counter and of the mode helper, and once with a reading as an argument.
#[derive(Debug, Clone)]
pub struct DeviceFdir {
    name: &'static str,
    fault_counter: FaultCounterStd,
    recovery: RecoveryFdir<HealthTableMap>,
    recovery_off_duration: Duration,
    events: VecDeque<FdirEvent>,
}

impl View for DeviceFdir {
    type V = FdirModel;

    closed spec fn view(&self) -> FdirModel {
        FdirModel {
            name: self.name@,
            counter: self.fault_counter@,
            recovery: self.recovery@,
            off_duration: self.recovery_off_duration.nanos as nat,
            events: self.events@,
            clock: self.fault_counter.spec_clock(),
        }
    }
}

impl DeviceFdir {
    /// FDIR of the device `name`. Its component is marked faulty when it would be recovered more
    /// than [RECOVERY_THRESHOLD] times.
    pub fn new(
        name: &'static str,
        component_id: ComponentId,
        health_table: HealthTableMap,
        fault_counter: FaultCounterStd,
    ) -> (fdir: Self)
        ensures
            fdir@ == FdirModel::fresh(
                name@,
                component_id.spec_raw(),
                health_table.entries(),
                fault_counter@,
                fault_counter.spec_clock(),
            ),
            fdir@.inv(),
    {
        let clock = fault_counter.clock();
        DeviceFdir {
            name,
            fault_counter,
            recovery: RecoveryFdir::with_clock(
                component_id.raw(),
                health_table,
                RECOVERY_THRESHOLD,
                Duration::from_secs(RECOVERY_DECREMENT_AFTER),
                clock,
            ),
            recovery_off_duration: Duration::from_millis(RECOVERY_OFF_DURATION),
            events: VecDeque::new(),
        }
    }

    /// Name of the device.
    pub fn name(&self) -> (name: &'static str)
        ensures
            name@ == self@.name,
    {
        self.name
    }

    /// Current count of faults.
    pub fn fault_count(&self) -> (count: u32)
        ensures
            count == self@.counter.fault_count,
    {
        self.fault_counter.fault_count()
    }

    /// Health of the component.
    pub fn health(&self) -> (health: Option<HealthState>)
        ensures
            health == self@.recovery.health(),
    {
        self.recovery.health()
    }

    /// Sets the health of the component.
    pub fn set_health(&mut self, health: HealthState)
        ensures
            final(self)@ == (FdirModel {
                recovery: old(self)@.recovery.with_health(health),
                ..old(self)@
            }),
    {
        self.recovery.set_health(health);
    }

    /// Sets the time the device stays unpowered during a power cycle.
    pub fn set_recovery_off_duration(&mut self, duration: Duration)
        ensures
            final(self)@ == (FdirModel { off_duration: duration.nanos as nat, ..old(self)@ }),
    {
        self.recovery_off_duration = duration;
    }

    /// The oldest event which was not retrieved yet.
    pub fn next_event(&mut self) -> (event: Option<FdirEvent>)
        ensures
            old(self)@.events.len() == 0 ==> event is None && final(self)@ == old(self)@,
            old(self)@.events.len() > 0 ==> event == Some(old(self)@.events[0]) && final(self)@
                == (FdirModel { events: old(self)@.events.drop_first(), ..old(self)@ }),
    {
        let event = self.events.pop_front();
        proof {
            if old(self)@.events.len() > 0 {
                assert(self.events@ =~= old(self).events@.drop_first());
            }
        }
        event
    }

    /// Retrieves all events, the oldest one first.
    pub fn take_events(&mut self) -> (events: VecDeque<FdirEvent>)
        ensures
            events@ == old(self)@.events,
            final(self)@ == (FdirModel { events: Seq::empty(), ..old(self)@ }),
    {
        let mut events: VecDeque<FdirEvent> = VecDeque::new();
        std::mem::swap(&mut events, &mut self.events);
        events
    }

    /// The clock of this FDIR, which is the one of the fault counter.
    fn clock(&self) -> (clock: Clock)
        ensures
            clock == self@.clock,
    {
        self.fault_counter.clock()
    }

    /// Should be called once per cycle, before the mode transition is handled. Starts a power
    /// cycle if the health was set to [HealthState::NeedsRecovery] by the FDIR or by ground.
    pub fn periodic_operation(&mut self, modes: &mut SwitchAndModeHelper<DeviceMode>)
        ensures
            exists|now: nat, mode_now: nat|
                (SupervisedModel { fdir: final(self)@, modes: final(modes)@ })
                    == #[trigger] (SupervisedModel {
                    fdir: old(self)@,
                    modes: old(modes)@,
                }).cycled_by(now, mode_now),
            old(self)@.inv() ==> final(self)@.inv(),
    {
        let now = self.clock().now();
        let mode_now = modes.clock().now();
        self.run_cycle(modes, now, mode_now);
        assert((SupervisedModel { fdir: self@, modes: modes@ }) == (SupervisedModel {
            fdir: old(self)@,
            modes: old(modes)@,
        }).cycled_by(now.nanos as nat, mode_now.nanos as nat));
    }

    /// [Self::periodic_operation] at the time `now`.
    pub fn periodic_operation_at(
        &mut self,
        modes: &mut SwitchAndModeHelper<DeviceMode>,
        now: Instant,
    )
        ensures
            (SupervisedModel { fdir: final(self)@, modes: final(modes)@ }) == (SupervisedModel {
                fdir: old(self)@,
                modes: old(modes)@,
            }).cycled(now.nanos as nat),
            old(self)@.inv() ==> final(self)@.inv(),
    {
        self.run_cycle(modes, now, now);
    }

    /// One cycle at the time `now` on the clock of the FDIR, and `mode_now` on the clock of the
    /// mode helper.
    fn run_cycle(
        &mut self,
        modes: &mut SwitchAndModeHelper<DeviceMode>,
        now: Instant,
        mode_now: Instant,
    )
        ensures
            (SupervisedModel { fdir: final(self)@, modes: final(modes)@ }) == (SupervisedModel {
                fdir: old(self)@,
                modes: old(modes)@,
            }).cycled_by(now.nanos as nat, mode_now.nanos as nat),
            old(self)@.inv() ==> final(self)@.inv(),
    {
        self.recovery.periodic_operation_at(now);
        self.check_needs_recovery(modes, mode_now);
    }

    /// The communication with the device worked. Faults are forgotten over time.
    pub fn register_success(&mut self)
        ensures
            exists|now: nat| final(self)@ == #[trigger] old(self)@.after_success(now),
    {
        let now = self.clock().now();
        self.register_success_at(now);
        assert(self@ == old(self)@.after_success(now.nanos as nat));
    }

    /// [Self::register_success] at the time `now`.
    pub fn register_success_at(&mut self, now: Instant)
        ensures
            final(self)@ == old(self)@.after_success(now.nanos as nat),
    {
        self.fault_counter.try_decrement_at(now);
    }

    /// If the fault threshold is exceeded, the device is power cycled. If it was power cycled
    /// too often, the component is marked faulty and commanded off instead.
    pub fn register_fault(&mut self, modes: &mut SwitchAndModeHelper<DeviceMode>)
        requires
            old(self)@.inv(),
            old(self)@.counter.fault_count < u32::MAX,
        ensures
            exists|now: nat, mode_now: nat|
                (SupervisedModel { fdir: final(self)@, modes: final(modes)@ })
                    == #[trigger] (SupervisedModel {
                    fdir: old(self)@,
                    modes: old(modes)@,
                }).after_fault_by(now, mode_now),
            final(self)@.inv(),
    {
        let now = self.clock().now();
        let mode_now = modes.clock().now();
        self.count_fault(modes, now, mode_now);
        assert((SupervisedModel { fdir: self@, modes: modes@ }) == (SupervisedModel {
            fdir: old(self)@,
            modes: old(modes)@,
        }).after_fault_by(now.nanos as nat, mode_now.nanos as nat));
    }

    /// [Self::register_fault] at the time `now`.
    pub fn register_fault_at(&mut self, modes: &mut SwitchAndModeHelper<DeviceMode>, now: Instant)
        requires
            old(self)@.inv(),
            old(self)@.counter.fault_count < u32::MAX,
        ensures
            (SupervisedModel { fdir: final(self)@, modes: final(modes)@ }) == (SupervisedModel {
                fdir: old(self)@,
                modes: old(modes)@,
            }).after_fault(now.nanos as nat),
            final(self)@.inv(),
    {
        self.count_fault(modes, now, now);
    }

    /// A fault at the time `now` on the clock of the FDIR, and `mode_now` on the clock of the
    /// mode helper.
    fn count_fault(
        &mut self,
        modes: &mut SwitchAndModeHelper<DeviceMode>,
        now: Instant,
        mode_now: Instant,
    )
        requires
            old(self)@.inv(),
            old(self)@.counter.fault_count < u32::MAX,
        ensures
            (SupervisedModel { fdir: final(self)@, modes: final(modes)@ }) == (SupervisedModel {
                fdir: old(self)@,
                modes: old(modes)@,
            }).after_fault_by(now.nanos as nat, mode_now.nanos as nat),
            final(self)@.inv(),
    {
        if !self.fault_counter.increment_and_check_at(now) {
            return;
        }
        match self.recovery.handle_fault_at(now) {
            FaultResponse::Ignored => {},
            FaultResponse::Recover => {
                self.events.push_back(FdirEvent::FaultThresholdExceeded);
                self.check_needs_recovery(modes, mode_now);
            },
            FaultResponse::SetFaulty => {
                self.events.push_back(FdirEvent::FaultThresholdExceeded);
                self.give_up(modes, mode_now);
            },
        }
    }

    /// Mode commands from ground or the parent abort a running recovery. Must be called before
    /// the commanded transition is started.
    pub fn handle_mode_command(&mut self, modes: &SwitchAndModeHelper<DeviceMode>)
        ensures
            final(self)@ == old(self)@.after_mode_command(modes@),
            old(self)@.inv() ==> final(self)@.inv(),
    {
        if modes.power_cycle_active() {
            // Otherwise, the recovery would restart right away.
            self.recovery.recovery_done();
        }
    }

    /// The power cycle completed.
    pub fn handle_power_cycle_done(&mut self)
        ensures
            final(self)@ == old(self)@.after_power_cycle_done(),
            old(self)@.inv() ==> final(self)@.inv(),
    {
        // Faults registered while the device was switched off do not count anymore.
        self.fault_counter.clear();
        self.recovery.recovery_done();
        self.events.push_back(FdirEvent::Recovery(RecoveryEvent::Done));
    }

    /// A failed power cycle costs a recovery attempt like any other fault.
    pub fn handle_power_cycle_failed(
        &mut self,
        modes: &mut SwitchAndModeHelper<DeviceMode>,
        restore_mode: DeviceMode,
    )
        requires
            old(self)@.inv(),
        ensures
            exists|now: nat, mode_now: nat|
                (SupervisedModel { fdir: final(self)@, modes: final(modes)@ })
                    == #[trigger] (SupervisedModel {
                    fdir: old(self)@,
                    modes: old(modes)@,
                }).after_power_cycle_failed_by(restore_mode, now, mode_now),
            final(self)@.inv(),
    {
        let now = self.clock().now();
        let mode_now = modes.clock().now();
        self.count_failed_power_cycle(modes, restore_mode, now, mode_now);
        assert((SupervisedModel { fdir: self@, modes: modes@ }) == (SupervisedModel {
            fdir: old(self)@,
            modes: old(modes)@,
        }).after_power_cycle_failed_by(
            restore_mode,
            now.nanos as nat,
            mode_now.nanos as nat,
        ));
    }

    /// [Self::handle_power_cycle_failed] at the time `now`.
    pub fn handle_power_cycle_failed_at(
        &mut self,
        modes: &mut SwitchAndModeHelper<DeviceMode>,
        restore_mode: DeviceMode,
        now: Instant,
    )
        requires
            old(self)@.inv(),
        ensures
            (SupervisedModel { fdir: final(self)@, modes: final(modes)@ }) == (SupervisedModel {
                fdir: old(self)@,
                modes: old(modes)@,
            }).after_power_cycle_failed(restore_mode, now.nanos as nat),
            final(self)@.inv(),
    {
        self.count_failed_power_cycle(modes, restore_mode, now, now);
    }

    /// A failed power cycle at the time `now` on the clock of the FDIR, and `mode_now` on the
    /// clock of the mode helper.
    fn count_failed_power_cycle(
        &mut self,
        modes: &mut SwitchAndModeHelper<DeviceMode>,
        restore_mode: DeviceMode,
        now: Instant,
        mode_now: Instant,
    )
        requires
            old(self)@.inv(),
        ensures
            (SupervisedModel { fdir: final(self)@, modes: final(modes)@ }) == (SupervisedModel {
                fdir: old(self)@,
                modes: old(modes)@,
            }).after_power_cycle_failed_by(
                restore_mode,
                now.nanos as nat,
                mode_now.nanos as nat,
            ),
            final(self)@.inv(),
    {
        self.events.push_back(FdirEvent::Recovery(RecoveryEvent::Failed));
        match self.recovery.recovery_failed_at(now) {
            FaultResponse::Recover => {
                self.start_recovery(modes, restore_mode, mode_now);
            },
            FaultResponse::SetFaulty => {
                self.give_up(modes, mode_now);
            },
            // Ground changed the health during the recovery and is in charge now.
            FaultResponse::Ignored => {},
        }
    }

    fn check_needs_recovery(&mut self, modes: &mut SwitchAndModeHelper<DeviceMode>, now: Instant)
        ensures
            (SupervisedModel { fdir: final(self)@, modes: final(modes)@ }) == (SupervisedModel {
                fdir: old(self)@,
                modes: old(modes)@,
            }).recovery_checked(now.nanos as nat),
    {
        if modes.power_cycle_active() || modes.target().is_some()
            || !self.recovery.needs_recovery() {
            return;
        }
        if modes.mode() == DeviceMode::Off {
            // Nothing to power cycle, the next switch-on is a fresh start anyway.
            self.recovery.recovery_done();
            return;
        }
        let restore_mode = modes.mode();
        self.start_recovery(modes, restore_mode, now);
    }

    fn start_recovery(
        &mut self,
        modes: &mut SwitchAndModeHelper<DeviceMode>,
        restore_mode: DeviceMode,
        now: Instant,
    )
        ensures
            (SupervisedModel { fdir: final(self)@, modes: final(modes)@ }) == (SupervisedModel {
                fdir: old(self)@,
                modes: old(modes)@,
            }).recovery_started(restore_mode, now.nanos as nat),
    {
        modes.start_power_cycle_at(restore_mode, self.recovery_off_duration, now);
        self.events.push_back(FdirEvent::Recovery(RecoveryEvent::Started));
    }

    fn give_up(&mut self, modes: &mut SwitchAndModeHelper<DeviceMode>, now: Instant)
        ensures
            (SupervisedModel { fdir: final(self)@, modes: final(modes)@ }) == (SupervisedModel {
                fdir: old(self)@,
                modes: old(modes)@,
            }).given_up(now.nanos as nat),
    {
        self.events.push_back(FdirEvent::Recovery(RecoveryEvent::ThresholdExceeded));
        self.switch_off_faulty_device(modes, now);
    }

    fn switch_off_faulty_device(
        &self,
        modes: &mut SwitchAndModeHelper<DeviceMode>,
        now: Instant,
    )
        ensures
            (SupervisedModel { fdir: self@, modes: final(modes)@ }) == (SupervisedModel {
                fdir: self@,
                modes: old(modes)@,
            }).switched_off(now.nanos as nat),
    {
        // Do not restart an already pending Off transition, which would reset the transition
        // state machine before it can finish.
        let pending = match modes.target() {
            Some(DeviceMode::Off) => true,
            _ => false,
        };
        if !pending {
            modes.start_transition_at(DeviceMode::Off, None, now);
        }
    }
}

} // verus!
