//! Mode transitions of devices which have a power switch.

use vstd::prelude::*;

use crate::eps::{PowerModel, PowerSwitchHelper, SwitchSet};
use crate::time::{elapsed, Clock, Duration, Instant};
use crate::types::ccsds::CcsdsPacketIdAndPsc;
use crate::types::pcdu::{SwitchId, SwitchRequest};
use crate::types::DeviceMode;

verus! {

/// Helper trait required to make [SwitchAndModeHelper] generic.
///
/// It allows to distinguish a powered-off mode from one or more powered-on modes, so
/// [SwitchAndModeHelper] knows which way to drive the switch for a given target mode.
pub trait PowerSwitchedMode: Copy {
    /// The powered-off mode.
    const OFF: Self;

    /// The device needs power in this mode.
    spec fn spec_requires_power(&self) -> bool;

    /// The powered-off mode does not need power.
    proof fn off_requires_no_power()
        ensures
            !Self::OFF.spec_requires_power(),
    ;

    /// The device needs power in this mode.
    fn requires_power(&self) -> (required: bool)
        ensures
            required == self.spec_requires_power(),
    ;
}

impl PowerSwitchedMode for DeviceMode {
    const OFF: DeviceMode = DeviceMode::Off;

    open spec fn spec_requires_power(&self) -> bool {
        *self != DeviceMode::Off
    }

    proof fn off_requires_no_power() {
    }

    fn requires_power(&self) -> (required: bool) {
        *self != DeviceMode::Off
    }
}

/// The powered-off mode of a device is the mode which is called off.
pub proof fn lemma_device_mode_off()
    ensures
        <DeviceMode as PowerSwitchedMode>::OFF == DeviceMode::Off,
{
}

/// Progress of a transition.
#[derive(Debug, Clone, Copy, PartialEq, Eq, Structural)]
pub enum SwitchTransitionState {
    /// The switch was not commanded yet.
    Idle,
    /// The switch was commanded, but did not reach its target state yet.
    PowerSwitching,
}

/// Outcome of a single power switch transition, with the telecommand which asked for it.
#[derive(Debug, Clone, Copy, PartialEq, Eq, Structural)]
pub enum SwitchOutcome {
    Reached(Option<CcsdsPacketIdAndPsc>),
    Failed(Option<CcsdsPacketIdAndPsc>),
}

/// Dedicated states for power cycling a device.
#[derive(Debug, Clone, Copy)]
enum PowerCycleState<Mode> {
    Idle,
    SwitchingOff { restore_mode: Mode },
    WaitingOff { restore_mode: Mode, since: Instant },
    SwitchingOn { restore_mode: Mode },
}

/// Outcome of a pending mode transition, once [SwitchAndModeHelper::handle_mode_transition]
/// has driven it to completion. Carries back whichever TC commanded the transition, if any, so
/// the caller can reply to it. What that reply looks like is handler-specific, so this stays
/// out of the helper.
#[derive(Debug, Clone, Copy, PartialEq, Eq)]
pub enum ModeTransitionEvent<Mode> {
    /// The target mode was reached.
    Reached(Option<CcsdsPacketIdAndPsc>),
    /// The target mode could not be reached.
    Failed(Option<CcsdsPacketIdAndPsc>),
    /// The power cycle completed and the mode before the power cycle was restored.
    PowerCycleDone,
    /// Power switching failed during the power cycle. The power cycle is not hidden anymore,
    /// so [SwitchAndModeHelper::reported_mode] returns the actual mode again. `restore_mode` is
    /// the mode the power cycle should have restored, which can be used to retry it.
    PowerCycleFailed { restore_mode: Mode },
}

/// Mathematical model of the state of a power cycle. The time is a clock reading in nanoseconds.
pub enum PowerCycle<Mode> {
    /// There is no power cycle.
    Idle,
    /// The device is being switched off.
    SwitchingOff { restore_mode: Mode },
    /// The device is off since the given time.
    WaitingOff { restore_mode: Mode, since: nat },
    /// The device is being switched on again.
    SwitchingOn { restore_mode: Mode },
}

/// Mathematical model of the [SwitchAndModeHelper]. Times are clock readings in nanoseconds.
pub struct ModeModel<Mode> {
    /// Mode of the device.
    pub current: Mode,
    /// Target of the transition, if there is one.
    pub target: Option<Mode>,
    /// Telecommand which asked for the transition.
    pub commander: Option<CcsdsPacketIdAndPsc>,
    /// Start of the transition.
    pub started: Option<nat>,
    /// Progress of the transition.
    pub state: SwitchTransitionState,
    /// Time after which a transition fails.
    pub timeout: nat,
    /// Access to the power switch.
    pub power: PowerModel,
    /// Switch of the device.
    pub switch_id: SwitchId,
    /// State of the power cycle.
    pub cycle: PowerCycle<Mode>,
    /// Time which the device stays off in a power cycle.
    pub off_duration: nat,
    /// Clock which tells the time.
    pub clock: Clock,
}

impl<Mode: PowerSwitchedMode> ModeModel<Mode> {
    /// Device without a transition.
    pub open spec fn fresh(
        current: Mode,
        timeout: nat,
        power: PowerModel,
        switch_id: SwitchId,
        clock: Clock,
    ) -> ModeModel<Mode> {
        ModeModel {
            current,
            target: None,
            commander: None,
            started: None,
            state: SwitchTransitionState::Idle,
            timeout,
            power,
            switch_id,
            cycle: PowerCycle::Idle,
            off_duration: 0,
            clock,
        }
    }

    /// A power cycle is running.
    pub open spec fn power_cycle_active(self) -> bool {
        self.cycle !is Idle
    }

    /// Mode which is reported to other components.
    pub open spec fn reported_mode(self) -> Mode {
        match self.cycle {
            PowerCycle::SwitchingOff { restore_mode } => restore_mode,
            PowerCycle::WaitingOff { restore_mode, .. } => restore_mode,
            PowerCycle::SwitchingOn { restore_mode } => restore_mode,
            PowerCycle::Idle => self.current,
        }
    }

    /// A transition starts, no matter why.
    pub open spec fn targeting(
        self,
        target: Mode,
        commander: Option<CcsdsPacketIdAndPsc>,
        now: nat,
    ) -> ModeModel<Mode> {
        ModeModel {
            target: Some(target),
            commander,
            started: Some(now),
            state: SwitchTransitionState::Idle,
            ..self
        }
    }

    /// A transition was commanded, which aborts a power cycle.
    pub open spec fn transition_started(
        self,
        target: Mode,
        commander: Option<CcsdsPacketIdAndPsc>,
        now: nat,
    ) -> ModeModel<Mode> {
        ModeModel { cycle: PowerCycle::Idle, ..self }.targeting(target, commander, now)
    }

    /// A power cycle was commanded.
    pub open spec fn power_cycle_started(
        self,
        restore_mode: Mode,
        off_duration: nat,
        now: nat,
    ) -> ModeModel<Mode> {
        ModeModel {
            cycle: PowerCycle::SwitchingOff { restore_mode },
            off_duration,
            ..self
        }.targeting(Mode::OFF, None, now)
    }

    /// The device was off for long enough and has to be switched on again.
    pub open spec fn off_time_over(self, now: nat) -> bool {
        self.cycle matches PowerCycle::WaitingOff { since, .. } && elapsed(since, now)
            >= self.off_duration
    }

    /// The device starts to be switched on if it was off for long enough.
    pub open spec fn woken_up(self, now: nat) -> ModeModel<Mode> {
        if self.off_time_over(now) {
            let restore_mode = self.reported_mode();
            ModeModel { cycle: PowerCycle::SwitchingOn { restore_mode }, ..self }.targeting(
                restore_mode,
                None,
                now,
            )
        } else {
            self
        }
    }

    /// The switch is commanded once per transition.
    pub open spec fn switch_commanded(self) -> ModeModel<Mode> {
        match (self.target, self.state) {
            (Some(target), SwitchTransitionState::Idle) => ModeModel {
                power: self.power.commanded(self.switch_id, target.spec_requires_power()),
                state: SwitchTransitionState::PowerSwitching,
                ..self
            },
            _ => self,
        }
    }

    /// The switch is in the state required by the target mode.
    pub open spec fn switch_reached(self) -> bool {
        self.target matches Some(target) && self.power.is_switch_on(self.switch_id)
            == target.spec_requires_power()
    }

    /// The transition takes too long.
    pub open spec fn timed_out(self, now: nat) -> bool {
        self.started matches Some(started) && elapsed(started, now) >= self.timeout
    }

    /// The transition ends in mode `current`.
    pub open spec fn ended(self, current: Mode) -> ModeModel<Mode> {
        ModeModel {
            current,
            target: None,
            commander: None,
            started: None,
            state: SwitchTransitionState::Idle,
            ..self
        }
    }

    /// Outcome of the transition, if it ends now.
    pub open spec fn switch_outcome(self, now: nat) -> Option<SwitchOutcome> {
        if self.target is None {
            None
        } else if self.switch_reached() {
            Some(SwitchOutcome::Reached(self.commander))
        } else if self.timed_out(now) {
            Some(SwitchOutcome::Failed(self.commander))
        } else {
            None
        }
    }

    /// The transition is driven, without regard to the power cycle.
    pub open spec fn switched(self, now: nat) -> ModeModel<Mode> {
        match self.switch_outcome(now) {
            Some(SwitchOutcome::Reached(_)) => self.switch_commanded().ended(self.target->0),
            Some(SwitchOutcome::Failed(_)) => self.switch_commanded().ended(self.current),
            None => self.switch_commanded(),
        }
    }

    /// Power cycle state after a transition with the given outcome.
    pub open spec fn next_cycle(self, outcome: Option<SwitchOutcome>, now: nat) -> PowerCycle<
        Mode,
    > {
        match (outcome, self.cycle) {
            (None, _) => self.cycle,
            (Some(SwitchOutcome::Reached(_)), PowerCycle::SwitchingOff { restore_mode }) =>
                PowerCycle::WaitingOff { restore_mode, since: now },
            (Some(SwitchOutcome::Reached(_)), PowerCycle::WaitingOff { .. }) => self.cycle,
            _ => PowerCycle::Idle,
        }
    }

    /// Event for a transition with the given outcome.
    pub open spec fn outcome_event(self, outcome: Option<SwitchOutcome>) -> Option<
        ModeTransitionEvent<Mode>,
    > {
        match (outcome, self.cycle) {
            (None, _) => None,
            (Some(SwitchOutcome::Reached(commander)), PowerCycle::Idle) => Some(
                ModeTransitionEvent::Reached(commander),
            ),
            (Some(SwitchOutcome::Failed(commander)), PowerCycle::Idle) => Some(
                ModeTransitionEvent::Failed(commander),
            ),
            (Some(SwitchOutcome::Failed(_)), _) => Some(
                ModeTransitionEvent::PowerCycleFailed { restore_mode: self.reported_mode() },
            ),
            (Some(SwitchOutcome::Reached(_)), PowerCycle::SwitchingOn { .. }) => Some(
                ModeTransitionEvent::PowerCycleDone,
            ),
            (Some(SwitchOutcome::Reached(_)), _) => None,
        }
    }

    /// One call of [SwitchAndModeHelper::handle_mode_transition].
    pub open spec fn handled(self, now: nat) -> ModeModel<Mode> {
        let awake = self.woken_up(now);
        ModeModel {
            cycle: awake.next_cycle(awake.switch_outcome(now), now),
            ..awake.switched(now)
        }
    }

    /// Event of one call of [SwitchAndModeHelper::handle_mode_transition].
    pub open spec fn handled_event(self, now: nat) -> Option<ModeTransitionEvent<Mode>> {
        let awake = self.woken_up(now);
        awake.outcome_event(awake.switch_outcome(now))
    }

    /// What holds of every device: a transition has a start time, a transition which a power
    /// cycle makes leads to the mode which the power cycle needs, and a device without a
    /// transition has nothing left over from the last one.
    pub open spec fn inv(self) -> bool {
        &&& self.target is Some ==> self.started is Some
        &&& self.target is None ==> self.started is None && self.commander is None && self.state
            == SwitchTransitionState::Idle
        &&& match self.cycle {
            PowerCycle::Idle => true,
            PowerCycle::SwitchingOff { .. } => self.target == Some(Mode::OFF)
                && self.commander is None,
            PowerCycle::WaitingOff { .. } => self.target is None && self.current
                == Mode::OFF,
            PowerCycle::SwitchingOn { restore_mode } => self.target == Some(restore_mode)
                && self.commander is None && self.current == Mode::OFF,
        }
    }
}

/// Drives the power switch commanding state machine shared by every device handler that owns a
/// single power switch of its own.
///
/// Handler-specific reactions (sending telemetry, invalidating cached sensor data, reporting to
/// a parent) are not this helper's concern: [Self::handle_mode_transition] just reports when a
/// transition finishes (or fails) and leaves what to do about it to the caller.
///
/// Every operation which needs the time exists twice: once reading the clock of the helper, and
/// once with the reading as an argument.
#[derive(Debug, Clone)]
pub struct SwitchAndModeHelper<Mode: PowerSwitchedMode> {
    current: Mode,
    target: Option<Mode>,
    tc_commander: Option<CcsdsPacketIdAndPsc>,
    transition_start: Option<Instant>,
    transition_state: SwitchTransitionState,
    timeout: Duration,
    switch_helper: PowerSwitchHelper,
    switch_id: SwitchId,
    power_cycle_state: PowerCycleState<Mode>,
    power_cycle_off_duration: Duration,
    clock: Clock,
}

impl<Mode: PowerSwitchedMode> View for SwitchAndModeHelper<Mode> {
    type V = ModeModel<Mode>;

    closed spec fn view(&self) -> ModeModel<Mode> {
        ModeModel {
            current: self.current,
            target: self.target,
            commander: self.tc_commander,
            started: match self.transition_start {
                Some(start) => Some(start.nanos as nat),
                None => None,
            },
            state: self.transition_state,
            timeout: self.timeout.nanos as nat,
            power: self.switch_helper@,
            switch_id: self.switch_id,
            cycle: match self.power_cycle_state {
                PowerCycleState::Idle => PowerCycle::Idle,
                PowerCycleState::SwitchingOff { restore_mode } => PowerCycle::SwitchingOff {
                    restore_mode,
                },
                PowerCycleState::WaitingOff { restore_mode, since } => PowerCycle::WaitingOff {
                    restore_mode,
                    since: since.nanos as nat,
                },
                PowerCycleState::SwitchingOn { restore_mode } => PowerCycle::SwitchingOn {
                    restore_mode,
                },
            },
            off_duration: self.power_cycle_off_duration.nanos as nat,
            clock: self.clock,
        }
    }
}

impl<Mode: PowerSwitchedMode> SwitchAndModeHelper<Mode> {
    /// Helper for a device in mode `init_mode`, with a clock of its own.
    pub fn new(
        init_mode: Mode,
        timeout: Duration,
        switch_helper: PowerSwitchHelper,
        switch_id: SwitchId,
    ) -> (helper: Self)
        ensures
            helper@ == ModeModel::fresh(
                init_mode,
                timeout.nanos as nat,
                switch_helper@,
                switch_id,
                helper@.clock,
            ),
    {
        Self::with_clock(init_mode, timeout, switch_helper, switch_id, Clock::new())
    }

    /// Helper for a device in mode `init_mode` which reads the given clock.
    pub fn with_clock(
        init_mode: Mode,
        timeout: Duration,
        switch_helper: PowerSwitchHelper,
        switch_id: SwitchId,
        clock: Clock,
    ) -> (helper: Self)
        ensures
            helper@ == ModeModel::fresh(
                init_mode,
                timeout.nanos as nat,
                switch_helper@,
                switch_id,
                clock,
            ),
    {
        SwitchAndModeHelper {
            current: init_mode,
            target: None,
            tc_commander: None,
            transition_start: None,
            transition_state: SwitchTransitionState::Idle,
            timeout,
            switch_helper,
            switch_id,
            power_cycle_state: PowerCycleState::Idle,
            power_cycle_off_duration: Duration::zero(),
            clock,
        }
    }

    /// Mode of the device.
    pub fn mode(&self) -> (mode: Mode)
        ensures
            mode == self@.current,
    {
        self.current
    }

    /// Target of the transition, if there is one.
    pub fn target(&self) -> (target: Option<Mode>)
        ensures
            target == self@.target,
    {
        self.target
    }

    /// Mode which should be reported to other components. A power cycle is hidden from them,
    /// so this is the mode which is restored after the power cycle while one is active.
    pub fn reported_mode(&self) -> (mode: Mode)
        ensures
            mode == self@.reported_mode(),
    {
        match self.power_cycle_state {
            PowerCycleState::SwitchingOff { restore_mode } => restore_mode,
            PowerCycleState::WaitingOff { restore_mode, .. } => restore_mode,
            PowerCycleState::SwitchingOn { restore_mode } => restore_mode,
            PowerCycleState::Idle => self.current,
        }
    }

    /// A power cycle is running.
    pub fn power_cycle_active(&self) -> (active: bool)
        ensures
            active == self@.power_cycle_active(),
    {
        match self.power_cycle_state {
            PowerCycleState::Idle => false,
            _ => true,
        }
    }

    /// The clock of this helper.
    pub fn clock(&self) -> (clock: Clock)
        ensures
            clock == self@.clock,
    {
        self.clock
    }

    /// Last known switch states.
    pub fn switch_set(&self) -> (switch_set: SwitchSet)
        ensures
            switch_set == self@.power.switch_set,
    {
        self.switch_helper.switch_set()
    }

    /// Updates the switch states.
    pub fn set_switch_set(&mut self, switch_set: SwitchSet)
        ensures
            final(self)@ == (ModeModel {
                power: PowerModel { switch_set, ..old(self)@.power },
                ..old(self)@
            }),
    {
        self.switch_helper.set_switch_set(switch_set);
    }

    /// Collects all pending switch requests.
    pub fn take_switch_requests(&mut self) -> (requests: Vec<SwitchRequest>)
        ensures
            requests@ == old(self)@.power.requests,
            final(self)@ == (ModeModel {
                power: PowerModel { requests: Seq::empty(), ..old(self)@.power },
                ..old(self)@
            }),
    {
        self.switch_helper.take_requests()
    }

    /// Starts a new transition, aborting a running power cycle.
    pub fn start_transition(
        &mut self,
        target_mode: Mode,
        tc_commander: Option<CcsdsPacketIdAndPsc>,
    )
        ensures
            exists|now: nat|
                final(self)@ == #[trigger] old(self)@.transition_started(
                    target_mode,
                    tc_commander,
                    now,
                ),
    {
        let now = self.clock.now();
        self.start_transition_at(target_mode, tc_commander, now);
        assert(self@ == old(self)@.transition_started(
            target_mode,
            tc_commander,
            now.nanos as nat,
        ));
    }

    /// [Self::start_transition] at the time `now`.
    pub fn start_transition_at(
        &mut self,
        target_mode: Mode,
        tc_commander: Option<CcsdsPacketIdAndPsc>,
        now: Instant,
    )
        ensures
            final(self)@ == old(self)@.transition_started(
                target_mode,
                tc_commander,
                now.nanos as nat,
            ),
    {
        self.power_cycle_state = PowerCycleState::Idle;
        self.start_transition_internal(target_mode, tc_commander, now);
    }

    /// Switches the device off, keeps it off for `off_duration` and then switches it to
    /// `restore_mode`. Reaching the intermediate off mode does not generate an event.
    pub fn start_power_cycle(&mut self, restore_mode: Mode, off_duration: Duration)
        ensures
            exists|now: nat|
                final(self)@ == #[trigger] old(self)@.power_cycle_started(
                    restore_mode,
                    off_duration.nanos as nat,
                    now,
                ),
    {
        let now = self.clock.now();
        self.start_power_cycle_at(restore_mode, off_duration, now);
        assert(self@ == old(self)@.power_cycle_started(
            restore_mode,
            off_duration.nanos as nat,
            now.nanos as nat,
        ));
    }

    /// [Self::start_power_cycle] at the time `now`.
    pub fn start_power_cycle_at(&mut self, restore_mode: Mode, off_duration: Duration, now: Instant)
        ensures
            final(self)@ == old(self)@.power_cycle_started(
                restore_mode,
                off_duration.nanos as nat,
                now.nanos as nat,
            ),
    {
        self.power_cycle_state = PowerCycleState::SwitchingOff { restore_mode };
        self.power_cycle_off_duration = off_duration;
        self.start_transition_internal(Mode::OFF, None, now);
    }

    fn start_transition_internal(
        &mut self,
        target_mode: Mode,
        tc_commander: Option<CcsdsPacketIdAndPsc>,
        now: Instant,
    )
        ensures
            final(self)@ == old(self)@.targeting(target_mode, tc_commander, now.nanos as nat),
    {
        self.tc_commander = tc_commander;
        self.target = Some(target_mode);
        self.transition_start = Some(now);
        self.transition_state = SwitchTransitionState::Idle;
    }

    /// This is the main API that the periodic handler of a device handler should call.
    ///
    /// It handles the switch commanding and returns relevant events.
    pub fn handle_mode_transition(&mut self) -> (event: Option<ModeTransitionEvent<Mode>>)
        ensures
            exists|now: nat|
                {
                    &&& final(self)@ == #[trigger] old(self)@.handled(now)
                    &&& event == old(self)@.handled_event(now)
                },
    {
        let now = self.clock.now();
        let event = self.handle_mode_transition_at(now);
        assert(self@ == old(self)@.handled(now.nanos as nat));
        event
    }

    /// [Self::handle_mode_transition] at the time `now`.
    pub fn handle_mode_transition_at(&mut self, now: Instant) -> (event: Option<
        ModeTransitionEvent<Mode>,
    >)
        ensures
            final(self)@ == old(self)@.handled(now.nanos as nat),
            event == old(self)@.handled_event(now.nanos as nat),
    {
        // The most probable case: Nothing to do.
        if self.target.is_none() && !self.power_cycle_active() {
            return None;
        }
        // Handle this as an extra step so the switch transition after this can proceed.
        self.handle_waiting_for_off_when_power_cycling(now);
        // Core logic: Command the switches, check whether target switch state was reached.
        let outcome = match self.handle_switch_transition(now) {
            Some(outcome) => outcome,
            // The switch transition is on-going.
            None => {
                return None;
            },
        };
        let restore_mode = self.reported_mode();
        match (outcome, self.power_cycle_state) {
            // Regular mode transition without power cycling.
            (SwitchOutcome::Reached(tc_commander), PowerCycleState::Idle) => Some(
                ModeTransitionEvent::Reached(tc_commander),
            ),
            (SwitchOutcome::Failed(tc_commander), PowerCycleState::Idle) => Some(
                ModeTransitionEvent::Failed(tc_commander),
            ),
            // Power cycling, where a bit more logic is required.
            (SwitchOutcome::Failed(_), _) => {
                self.power_cycle_state = PowerCycleState::Idle;
                Some(ModeTransitionEvent::PowerCycleFailed { restore_mode })
            },
            // No switching going on for this case.
            (SwitchOutcome::Reached(_), PowerCycleState::WaitingOff { .. }) => None,
            (SwitchOutcome::Reached(_), PowerCycleState::SwitchingOff { .. }) => {
                self.power_cycle_state =
                PowerCycleState::WaitingOff { restore_mode, since: now };
                None
            },
            (SwitchOutcome::Reached(_), PowerCycleState::SwitchingOn { .. }) => {
                // Power is back and we are done.
                self.power_cycle_state = PowerCycleState::Idle;
                Some(ModeTransitionEvent::PowerCycleDone)
            },
        }
    }

    fn handle_waiting_for_off_when_power_cycling(&mut self, now: Instant)
        ensures
            final(self)@ == old(self)@.woken_up(now.nanos as nat),
    {
        if let PowerCycleState::WaitingOff { restore_mode, since } = self.power_cycle_state {
            if now.duration_since(since).nanos >= self.power_cycle_off_duration.nanos {
                self.power_cycle_state = PowerCycleState::SwitchingOn { restore_mode };
                self.start_transition_internal(restore_mode, None, now);
            }
        }
    }

    fn handle_switch_transition(&mut self, now: Instant) -> (outcome: Option<SwitchOutcome>)
        ensures
            final(self)@ == old(self)@.switched(now.nanos as nat),
            outcome == old(self)@.switch_outcome(now.nanos as nat),
    {
        let target_mode = match self.target {
            Some(target_mode) => target_mode,
            None => {
                return None;
            },
        };
        let switch_target_on = target_mode.requires_power();
        if self.transition_state == SwitchTransitionState::Idle {
            if switch_target_on {
                self.switch_helper.send_switch_on_cmd(self.switch_id);
            } else {
                self.switch_helper.send_switch_off_cmd(self.switch_id);
            }
            self.transition_state = SwitchTransitionState::PowerSwitching;
        }
        if self.switch_helper.is_switch_on(self.switch_id) == switch_target_on {
            self.current = target_mode;
            return Some(SwitchOutcome::Reached(self.finish_transition()));
        }
        if self.timed_out(now) {
            return Some(SwitchOutcome::Failed(self.finish_transition()));
        }
        None
    }

    /// Ends the transition and hands back the telecommand which asked for it.
    fn finish_transition(&mut self) -> (tc_commander: Option<CcsdsPacketIdAndPsc>)
        ensures
            final(self)@ == old(self)@.ended(old(self)@.current),
            tc_commander == old(self)@.commander,
    {
        self.target = None;
        self.transition_start = None;
        self.transition_state = SwitchTransitionState::Idle;
        self.tc_commander.take()
    }

    fn timed_out(&self, now: Instant) -> (timed_out: bool)
        ensures
            timed_out == self@.timed_out(now.nanos as nat),
    {
        match self.transition_start {
            Some(start) => now.duration_since(start).nanos >= self.timeout.nanos,
            None => false,
        }
    }
}

} // verus!
