//! Laws of mode transitions and power cycles.

use vstd::prelude::*;

use crate::device_mode::{
    ModeModel, ModeTransitionEvent, PowerCycle, PowerSwitchedMode, SwitchTransitionState,
};
use crate::eps::{PowerModel, SwitchSet};
use crate::time::{self, Clock};
use crate::types::ccsds::CcsdsPacketIdAndPsc;
use crate::types::pcdu::{SwitchId, SwitchRequest, SwitchStateBinary};
use crate::types::DeviceMode;

verus! {

/// The device after an update of the switch states.
pub open spec fn with_switches<Mode>(modes: ModeModel<Mode>, switch_set: SwitchSet) -> ModeModel<
    Mode,
> {
    ModeModel { power: PowerModel { switch_set, ..modes.power }, ..modes }
}

/// The device after its switch requests were collected.
pub open spec fn with_requests<Mode>(
    modes: ModeModel<Mode>,
    requests: Seq<SwitchRequest>,
) -> ModeModel<Mode> {
    ModeModel { power: PowerModel { requests, ..modes.power }, ..modes }
}

/// The invariant of the helper holds of a new one and is kept by every operation.
pub proof fn law_mode_invariant<Mode: PowerSwitchedMode>(
    modes: ModeModel<Mode>,
    mode: Mode,
    duration: nat,
    switch_id: SwitchId,
    commander: Option<CcsdsPacketIdAndPsc>,
    power: PowerModel,
    clock: Clock,
    now: nat,
)
    requires
        modes.inv(),
    ensures
        ModeModel::fresh(mode, duration, power, switch_id, clock).inv(),
        modes.transition_started(mode, commander, now).inv(),
        modes.power_cycle_started(mode, duration, now).inv(),
        modes.handled(now).inv(),
        with_switches(modes, power.switch_set).inv(),
        with_requests(modes, power.requests).inv(),
{
}

/// Without a transition and a power cycle, nothing happens.
pub proof fn law_nothing_to_do<Mode: PowerSwitchedMode>(modes: ModeModel<Mode>, now: nat)
    requires
        modes.target is None,
        !modes.power_cycle_active(),
    ensures
        modes.handled(now) == modes,
        modes.handled_event(now) is None,
{
}

/// An event ends the transition and the power cycle, so there is at most one event for each.
pub proof fn law_event_ends_transition<Mode: PowerSwitchedMode>(modes: ModeModel<Mode>, now: nat)
    requires
        modes.inv(),
        modes.handled_event(now) is Some,
    ensures
        modes.handled(now).target is None,
        !modes.handled(now).power_cycle_active(),
{
}

/// The switch is commanded in the first cycle of a transition, and in no later one: a pending
/// command is never repeated.
pub proof fn law_one_command_per_transition<Mode: PowerSwitchedMode>(
    modes: ModeModel<Mode>,
    now: nat,
)
    requires
        modes.inv(),
        modes.target is Some,
    ensures
        modes.state == SwitchTransitionState::Idle ==> modes.handled(now).power.requests
            == modes.power.commanded(
            modes.switch_id,
            (modes.target->0).spec_requires_power(),
        ).requests,
        modes.state != SwitchTransitionState::Idle ==> modes.handled(now).power.requests
            == modes.power.requests,
        modes.handled(now).target is Some ==> modes.handled(now).state
            != SwitchTransitionState::Idle && modes.handled(now).target == modes.target,
{
}

/// A commanded transition reaches its target mode as soon as the switch has the required state,
/// and reports that to whoever commanded it.
pub proof fn law_transition_reaches_target<Mode: PowerSwitchedMode>(
    modes: ModeModel<Mode>,
    target: Mode,
    commander: Option<CcsdsPacketIdAndPsc>,
    start: nat,
    now: nat,
)
    requires
        modes.power.is_switch_on(modes.switch_id) == target.spec_requires_power(),
    ensures
        ({
            let started = modes.transition_started(target, commander, start);
            &&& started.handled_event(now) == Some(ModeTransitionEvent::<Mode>::Reached(commander))
            &&& started.handled(now).current == target
            &&& started.handled(now).target is None
        }),
{
}

/// A commanded transition whose switch does not react fails after the timeout and not before. It
/// leaves the mode as it was.
pub proof fn law_transition_times_out<Mode: PowerSwitchedMode>(
    modes: ModeModel<Mode>,
    target: Mode,
    commander: Option<CcsdsPacketIdAndPsc>,
    start: nat,
    now: nat,
)
    requires
        modes.power.is_switch_on(modes.switch_id) != target.spec_requires_power(),
    ensures
        ({
            let started = modes.transition_started(target, commander, start);
            &&& started.handled(now).current == modes.current
            &&& time::elapsed(start, now) >= modes.timeout ==> started.handled_event(now) == Some(
                ModeTransitionEvent::<Mode>::Failed(commander),
            )
            &&& time::elapsed(start, now) < modes.timeout ==> started.handled_event(now) is None
                && started.handled(now).target == Some(target)
        }),
{
}

/// A power cycle is hidden from other components: the reported mode stays the one which will be
/// restored until the power cycle ends. It ends with that mode, or with a failure which names
/// it.
pub proof fn law_power_cycle_is_hidden<Mode: PowerSwitchedMode>(modes: ModeModel<Mode>, now: nat)
    requires
        modes.inv(),
        modes.power_cycle_active(),
    ensures
        match modes.handled_event(now) {
            None => modes.handled(now).power_cycle_active() && modes.handled(now).reported_mode()
                == modes.reported_mode(),
            Some(ModeTransitionEvent::PowerCycleDone) => modes.handled(now).current
                == modes.reported_mode(),
            Some(ModeTransitionEvent::PowerCycleFailed { restore_mode }) => restore_mode
                == modes.reported_mode() && modes.handled(now).reported_mode()
                == modes.current,
            Some(_) => false,
        },
{
}

/// The device stays off for the whole off duration: nothing is commanded before.
pub proof fn law_power_cycle_waits<Mode: PowerSwitchedMode>(modes: ModeModel<Mode>, now: nat)
    requires
        modes.inv(),
        modes.cycle matches PowerCycle::WaitingOff { since, .. } && time::elapsed(since, now)
            < modes.off_duration,
    ensures
        modes.handled(now) == modes,
        modes.handled_event(now) is None,
{
}

/// A commanded transition aborts a power cycle, which is not hidden anymore.
pub proof fn law_transition_aborts_power_cycle<Mode: PowerSwitchedMode>(
    modes: ModeModel<Mode>,
    target: Mode,
    commander: Option<CcsdsPacketIdAndPsc>,
    start: nat,
    now: nat,
)
    ensures
        ({
            let started = modes.transition_started(target, commander, start);
            &&& !started.power_cycle_active()
            &&& started.reported_mode() == modes.current
            &&& started.handled_event(now) matches Some(event) ==> event == ModeTransitionEvent::<
                Mode,
            >::Reached(commander) || event == ModeTransitionEvent::<Mode>::Failed(commander)
        }),
{
}

/// A complete power cycle: the device is switched off, stays off for the off duration and is
/// switched on again, with exactly one command for each. Only the end of the power cycle is an
/// event.
pub proof fn law_complete_power_cycle<Mode: PowerSwitchedMode>(
    modes: ModeModel<Mode>,
    restore_mode: Mode,
    off_duration: nat,
    switches_off: SwitchSet,
    switches_on: SwitchSet,
    start: nat,
    commanded_off: nat,
    went_off: nat,
    commanded_on: nat,
    went_on: nat,
)
    requires
        restore_mode.spec_requires_power(),
        modes.power.is_switch_on(modes.switch_id),
        !with_switches(modes, switches_off).power.is_switch_on(modes.switch_id),
        with_switches(modes, switches_on).power.is_switch_on(modes.switch_id),
        time::elapsed(start, commanded_off) < modes.timeout,
        time::elapsed(went_off, commanded_on) >= off_duration,
    ensures
        ({
            let s0 = modes.power_cycle_started(restore_mode, off_duration, start);
            let s1 = s0.handled(commanded_off);
            let s2 = with_switches(s1, switches_off).handled(went_off);
            let s3 = s2.handled(commanded_on);
            let s4 = with_switches(s3, switches_on).handled(went_on);
            &&& s0.handled_event(commanded_off) is None
            &&& s1.power.requests == modes.power.commanded(modes.switch_id, false).requests
            &&& with_switches(s1, switches_off).handled_event(went_off) is None
            &&& s2.current == Mode::OFF
            &&& s2.power.requests == s1.power.requests
            &&& s2.handled_event(commanded_on) is None
            &&& s3.power.requests == s2.power.commanded(modes.switch_id, true).requests
            &&& with_switches(s3, switches_on).handled_event(went_on) == Some(
                ModeTransitionEvent::<Mode>::PowerCycleDone,
            )
            &&& s4.current == restore_mode
            &&& s4.power.requests == s3.power.requests
            &&& !s4.power_cycle_active()
        }),
{
    Mode::off_requires_no_power();
}

/// The settings of a device, and what is known about the switches.
pub open spec fn same_settings<Mode>(a: ModeModel<Mode>, b: ModeModel<Mode>) -> bool {
    &&& a.timeout == b.timeout
    &&& a.switch_id == b.switch_id
    &&& a.power.switch_set == b.power.switch_set
    &&& a.clock == b.clock
}

/// No operation changes the settings of the device or what is known about the switches. Starting
/// something does not command a switch by itself, and does not change the mode.
pub proof fn law_mode_settings_are_kept<Mode: PowerSwitchedMode>(
    modes: ModeModel<Mode>,
    mode: Mode,
    commander: Option<CcsdsPacketIdAndPsc>,
    off_duration: nat,
    now: nat,
)
    ensures
        same_settings(modes.handled(now), modes),
        modes.handled(now).off_duration == modes.off_duration,
        ({
            let started = modes.transition_started(mode, commander, now);
            &&& same_settings(started, modes)
            &&& started.off_duration == modes.off_duration
            &&& started.power.requests == modes.power.requests
            &&& started.current == modes.current
            &&& started.target == Some(mode)
            &&& started.commander == commander
            &&& started.started == Some(now)
            &&& started.state == SwitchTransitionState::Idle
        }),
        ({
            let started = modes.power_cycle_started(mode, off_duration, now);
            &&& same_settings(started, modes)
            &&& started.off_duration == off_duration
            &&& started.power.requests == modes.power.requests
            &&& started.current == modes.current
            &&& started.target == Some(Mode::OFF)
            &&& started.commander is None
            &&& started.started == Some(now)
            &&& started.state == SwitchTransitionState::Idle
            &&& started.reported_mode() == mode
        }),
{
}

/// The first cycle of a transition asks for the power switch of the device, and for no other one,
/// to be on exactly if the target mode requires power.
pub proof fn law_transition_commands_its_switch<Mode: PowerSwitchedMode>(
    modes: ModeModel<Mode>,
    target: Mode,
    commander: Option<CcsdsPacketIdAndPsc>,
    start: nat,
    now: nat,
)
    ensures
        modes.transition_started(target, commander, start).handled(now).power.requests
            == modes.power.requests.push(
            SwitchRequest {
                switch_id: modes.switch_id,
                target_state: if target.spec_requires_power() {
                    SwitchStateBinary::On
                } else {
                    SwitchStateBinary::Off
                },
            },
        ),
{
}

/// Once the device went off in a power cycle, nothing happens before the requested off duration
/// elapsed. Then the switch is commanded on.
pub proof fn law_off_duration_is_honoured<Mode: PowerSwitchedMode>(
    modes: ModeModel<Mode>,
    restore_mode: Mode,
    off_duration: nat,
    start: nat,
    went_off: nat,
    now: nat,
)
    requires
        restore_mode.spec_requires_power(),
        !modes.power.is_switch_on(modes.switch_id),
        went_off <= now,
    ensures
        ({
            let off = modes.power_cycle_started(restore_mode, off_duration, start).handled(
                went_off,
            );
            &&& off.current == Mode::OFF
            &&& now < went_off + off_duration ==> off.handled(now) == off
            &&& now >= went_off + off_duration ==> off.handled(now).power.requests
                == off.power.requests.push(
                SwitchRequest {
                    switch_id: modes.switch_id,
                    target_state: SwitchStateBinary::On,
                },
            )
        }),
{
    Mode::off_requires_no_power();
}

/// A switch which does not react in time fails the power cycle, and the mode stays as it was.
pub proof fn law_power_cycle_times_out<Mode: PowerSwitchedMode>(
    modes: ModeModel<Mode>,
    restore_mode: Mode,
    off_duration: nat,
    start: nat,
    now: nat,
)
    requires
        modes.power.is_switch_on(modes.switch_id),
        start <= now,
    ensures
        ({
            let started = modes.power_cycle_started(restore_mode, off_duration, start);
            let after = started.handled(now);
            &&& now >= start + modes.timeout ==> {
                &&& started.handled_event(now) == Some(
                    ModeTransitionEvent::<Mode>::PowerCycleFailed { restore_mode },
                )
                &&& after.current == modes.current
                &&& after.reported_mode() == modes.current
                &&& after.target is None
            }
            &&& now < start + modes.timeout ==> {
                &&& started.handled_event(now) is None
                &&& after.target == Some(Mode::OFF)
                &&& after.reported_mode() == restore_mode
            }
        }),
{
    Mode::off_requires_no_power();
}

/// Without a power cycle, the reported mode is the mode of the device.
pub proof fn law_reported_mode_is_the_mode<Mode: PowerSwitchedMode>(modes: ModeModel<Mode>)
    ensures
        !modes.power_cycle_active() ==> modes.reported_mode() == modes.current,
        modes.power_cycle_active() == !(modes.cycle is Idle),
{
}

/// A device needs power in every mode but off.
pub proof fn law_device_modes_and_power()
    ensures
        !DeviceMode::Off.spec_requires_power(),
        DeviceMode::On.spec_requires_power(),
        DeviceMode::Normal.spec_requires_power(),
{
}

/// Switching on again at the end of a power cycle is a transition to the restored mode with its own
/// timeout. If the switch does not react, the power cycle fails and the device stays off.
pub proof fn law_switching_on_again<Mode: PowerSwitchedMode>(
    modes: ModeModel<Mode>,
    restore_mode: Mode,
    since: nat,
    now: nat,
    later: nat,
)
    requires
        modes.inv(),
        modes.cycle == (PowerCycle::WaitingOff { restore_mode, since }),
        restore_mode.spec_requires_power(),
        !modes.power.is_switch_on(modes.switch_id),
        modes.timeout > 0,
        since + modes.off_duration <= now <= later,
    ensures
        ({
            let woken = modes.handled(now);
            let after = woken.handled(later);
            &&& modes.handled_event(now) is None
            &&& woken.target == Some(restore_mode)
            &&& woken.started == Some(now)
            &&& woken.current == Mode::OFF
            &&& later < now + modes.timeout ==> {
                &&& woken.handled_event(later) is None
                &&& after.target == Some(restore_mode)
                &&& after.power.requests == woken.power.requests
            }
            &&& later >= now + modes.timeout ==> {
                &&& woken.handled_event(later) == Some(
                    ModeTransitionEvent::<Mode>::PowerCycleFailed { restore_mode },
                )
                &&& after.current == Mode::OFF
                &&& after.reported_mode() == Mode::OFF
                &&& after.target is None
            }
        }),
{
    Mode::off_requires_no_power();
}

/// Nothing of a transition is left over after its end, so the next one starts anew.
pub proof fn law_nothing_is_left_over<Mode: PowerSwitchedMode>(
    modes: ModeModel<Mode>,
    target: Mode,
    commander: Option<CcsdsPacketIdAndPsc>,
    start: nat,
    now: nat,
)
    ensures
        ({
            let started = modes.transition_started(target, commander, start);
            let after = started.handled(now);
            started.handled_event(now) is Some ==> {
                &&& after.target is None
                &&& after.commander is None
                &&& after.started is None
                &&& after.state == SwitchTransitionState::Idle
                &&& after.cycle is Idle
            }
        }),
{
}

/// A new device is in the given mode, and neither in a transition nor in a power cycle.
pub proof fn law_new_device_mode<Mode: PowerSwitchedMode>(
    current: Mode,
    timeout: nat,
    power: PowerModel,
    switch_id: SwitchId,
    clock: Clock,
)
    ensures
        ({
            let modes = ModeModel::fresh(current, timeout, power, switch_id, clock);
            &&& modes.current == current
            &&& modes.target is None
            &&& modes.commander is None
            &&& modes.started is None
            &&& modes.state == SwitchTransitionState::Idle
            &&& modes.timeout == timeout
            &&& modes.power == power
            &&& modes.switch_id == switch_id
            &&& modes.cycle is Idle
            &&& modes.off_duration == 0
            &&& modes.clock == clock
        }),
{
}

} // verus!
