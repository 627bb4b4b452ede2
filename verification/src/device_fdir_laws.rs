//! Laws of fault escalation and device recovery.

use vstd::prelude::*;

use crate::device_fdir::{FdirEvent, FdirModel, SupervisedModel};
use crate::device_mode::{lemma_device_mode_off, ModeModel};
use crate::fdir::{CounterModel, RecoveryEvent, RecoveryModel};
use crate::health::{HealthState, RawComponentId};
use crate::time::Clock;
use crate::types::ccsds::CcsdsPacketIdAndPsc;
use crate::types::DeviceMode;

verus! {

/// The device after its health was set.
pub open spec fn with_health(device: SupervisedModel, health: HealthState) -> SupervisedModel {
    SupervisedModel {
        fdir: FdirModel { recovery: device.fdir.recovery.with_health(health), ..device.fdir },
        ..device
    }
}

/// Every operation of the FDIR keeps the number of recoveries within its threshold, and the
/// invariant of the mode transitions.
pub proof fn law_supervision_invariant(
    device: SupervisedModel,
    restore_mode: DeviceMode,
    health: HealthState,
    now: nat,
)
    requires
        device.fdir.inv(),
        device.modes.inv(),
    ensures
        device.cycled(now).fdir.inv(),
        device.cycled(now).modes.inv(),
        device.after_fault(now).fdir.inv(),
        device.after_fault(now).modes.inv(),
        device.after_power_cycle_failed(restore_mode, now).fdir.inv(),
        device.after_power_cycle_failed(restore_mode, now).modes.inv(),
        device.fdir.after_success(now).inv(),
        device.fdir.after_mode_command(device.modes).inv(),
        device.fdir.after_power_cycle_done().inv(),
        with_health(device, health).fdir.inv(),
{
}

/// The fault counter never stays above its threshold.
pub proof fn law_fault_count_is_bounded(device: SupervisedModel, now: nat)
    ensures
        device.after_fault(now).fdir.counter.fault_count
            <= device.fdir.counter.failure_threshold,
{
}

/// Up to the threshold, a fault is only counted.
pub proof fn law_tolerated_fault_is_only_counted(device: SupervisedModel, now: nat)
    requires
        device.fdir.counter.fault_count < device.fdir.counter.failure_threshold,
    ensures
        device.after_fault(now).modes == device.modes,
        device.after_fault(now).fdir == (FdirModel {
            counter: device.fdir.counter.incremented(now),
            ..device.fdir
        }),
{
}

/// One fault above the threshold power cycles a device which is on and not in a transition. The
/// fault count starts again.
pub proof fn law_exceeded_threshold_power_cycles(device: SupervisedModel, now: nat)
    requires
        device.fdir.counter.fault_count >= device.fdir.counter.failure_threshold,
        !device.fdir.recovery.ignores_faults(),
        !device.fdir.recovery.attempts_used_up(),
        device.modes.target is None,
        !device.modes.power_cycle_active(),
        device.modes.current != DeviceMode::Off,
    ensures
        ({
            let after = device.after_fault(now);
            &&& after.fdir.counter.fault_count == 0
            &&& after.fdir.recovery.health() == Some(HealthState::NeedsRecovery)
            &&& after.fdir.events == device.fdir.events.push(
                FdirEvent::FaultThresholdExceeded,
            ).push(FdirEvent::Recovery(RecoveryEvent::Started))
            &&& after.modes == device.modes.power_cycle_started(
                device.modes.current,
                device.fdir.off_duration,
                now,
            )
            &&& after.modes.reported_mode() == device.modes.current
        }),
{
}

/// A device which was recovered too often is marked faulty and switched off.
pub proof fn law_too_many_recoveries_switch_off(device: SupervisedModel, now: nat)
    requires
        device.fdir.counter.fault_count >= device.fdir.counter.failure_threshold,
        !device.fdir.recovery.ignores_faults(),
        device.fdir.recovery.attempts_used_up(),
    ensures
        ({
            let after = device.after_fault(now);
            &&& after.fdir.recovery.health() == Some(HealthState::Faulty)
            &&& after.fdir.events == device.fdir.events.push(
                FdirEvent::FaultThresholdExceeded,
            ).push(FdirEvent::Recovery(RecoveryEvent::ThresholdExceeded))
            &&& after.modes.target == Some(DeviceMode::Off)
        }),
{
}

/// Faults of a device which was given up on, is recovering or is controlled by ground change
/// neither its health nor its mode, and are no event.
pub proof fn law_escalation_respects_health(device: SupervisedModel, now: nat)
    requires
        device.fdir.recovery.ignores_faults(),
    ensures
        device.after_fault(now).modes == device.modes,
        device.after_fault(now).fdir.recovery == device.fdir.recovery,
        device.after_fault(now).fdir.events == device.fdir.events,
{
}

/// Ground can trigger a power cycle with the health. If the device is off, there is nothing to
/// power cycle and the component is healthy right away.
pub proof fn law_health_triggers_recovery(device: SupervisedModel, now: nat)
    requires
        device.modes.target is None,
        !device.modes.power_cycle_active(),
    ensures
        ({
            let after = with_health(device, HealthState::NeedsRecovery).cycled(now);
            &&& device.modes.current == DeviceMode::Off ==> {
                &&& after.modes == device.modes
                &&& after.fdir.recovery.health() == Some(HealthState::Healthy)
                &&& after.fdir.events == device.fdir.events
            }
            &&& device.modes.current != DeviceMode::Off ==> {
                &&& after.modes.power_cycle_active()
                &&& after.modes.reported_mode() == device.modes.current
                &&& after.fdir.recovery.health() == Some(HealthState::NeedsRecovery)
                &&& after.fdir.events == device.fdir.events.push(
                    FdirEvent::Recovery(RecoveryEvent::Started),
                )
            }
        }),
{
}

/// A pending recovery waits for the end of a transition: it neither aborts nor repeats one.
pub proof fn law_recovery_waits_for_transition(device: SupervisedModel, now: nat)
    requires
        device.modes.target is Some || device.modes.power_cycle_active(),
    ensures
        device.cycled(now).modes == device.modes,
        device.cycled(now).fdir.events == device.fdir.events,
        device.cycled(now).fdir.recovery.health() == device.fdir.recovery.health(),
{
}

/// A completed power cycle makes the component healthy again and forgets its faults, unless the
/// health was changed meanwhile.
pub proof fn law_power_cycle_done_forgets_faults(fdir: FdirModel)
    ensures
        ({
            let after = fdir.after_power_cycle_done();
            &&& after.counter.fault_count == 0
            &&& after.events == fdir.events.push(FdirEvent::Recovery(RecoveryEvent::Done))
            &&& after.recovery.health() == (if fdir.recovery.needs_recovery() {
                Some(HealthState::Healthy)
            } else {
                fdir.recovery.health()
            })
        }),
{
}

/// A failed power cycle is retried with the same mode to restore until the attempts are used up,
/// and the component is switched off then. If ground changed the health, the device is left
/// alone.
pub proof fn law_failed_power_cycle(device: SupervisedModel, restore_mode: DeviceMode, now: nat)
    ensures
        ({
            let after = device.after_power_cycle_failed(restore_mode, now);
            let failed = device.fdir.events.push(FdirEvent::Recovery(RecoveryEvent::Failed));
            if !device.fdir.recovery.needs_recovery() {
                &&& after.modes == device.modes
                &&& after.fdir.recovery == device.fdir.recovery
                &&& after.fdir.events == failed
            } else if device.fdir.recovery.attempts_used_up() {
                &&& after.modes.target == Some(DeviceMode::Off)
                &&& after.fdir.recovery.health() == Some(HealthState::Faulty)
                &&& after.fdir.events == failed.push(
                    FdirEvent::Recovery(RecoveryEvent::ThresholdExceeded),
                )
            } else {
                &&& after.modes.power_cycle_active()
                &&& after.modes.reported_mode() == restore_mode
                &&& after.fdir.recovery.health() == Some(HealthState::NeedsRecovery)
                &&& after.fdir.events == failed.push(FdirEvent::Recovery(RecoveryEvent::Started))
            }
        }),
{
}

/// A mode command during a power cycle ends the recovery for good: the component is healthy
/// again, so the recovery does not restart once the commanded transition ends.
pub proof fn law_mode_command_ends_recovery(
    device: SupervisedModel,
    target: DeviceMode,
    commander: Option<CcsdsPacketIdAndPsc>,
    start: nat,
    now: nat,
)
    requires
        device.modes.power_cycle_active(),
    ensures
        ({
            let commanded = SupervisedModel {
                fdir: device.fdir.after_mode_command(device.modes),
                modes: device.modes.transition_started(target, commander, start),
            };
            &&& !commanded.fdir.recovery.needs_recovery()
            &&& commanded.cycled(now).modes == commanded.modes
            &&& SupervisedModel { modes: commanded.modes.handled(now), ..commanded }.cycled(
                now,
            ).modes == commanded.modes.handled(now)
        }),
{
}

/// A cycle of the FDIR forgets a recovery once it is old enough: if there are recoveries and the
/// decrement interval passed since the decrement clock started, one less is left. Otherwise, the
/// number of recoveries stays the same.
pub proof fn law_cycle_forgets_recoveries(device: SupervisedModel, last: nat, now: nat)
    requires
        device.fdir.recovery.counter.last_decrement == Some(last),
        device.fdir.recovery.counter.decrement_after > 0,
    ensures
        ({
            let before = device.fdir.recovery.counter;
            let after = device.cycled(now).fdir.recovery.counter;
            if before.fault_count > 0 && last + before.decrement_after <= now {
                after.fault_count == before.fault_count - 1 && after.last_decrement == Some(now)
            } else {
                after.fault_count == before.fault_count && after.last_decrement == Some(last)
            }
        }),
{
}

/// The device after a number of cycles of its FDIR.
pub open spec fn after_cycles(device: SupervisedModel, times: Seq<nat>) -> SupervisedModel
    decreases times.len(),
{
    if times.len() == 0 {
        device
    } else {
        after_cycles(device, times.drop_last()).cycled(times.last())
    }
}

/// The last of some times, or the start if there are none.
pub open spec fn latest(start: nat, times: Seq<nat>) -> nat {
    if times.len() == 0 {
        start
    } else {
        times.last()
    }
}

/// Whether at least an interval lies between a start and all following times.
pub open spec fn spaced(start: nat, times: Seq<nat>, interval: nat) -> bool
    decreases times.len(),
{
    times.len() > 0 ==> {
        &&& spaced(start, times.drop_last(), interval)
        &&& latest(start, times.drop_last()) + interval <= times.last()
    }
}

/// A device without a fault for long enough starts over: if it is cycled as often as there are
/// recoveries to forget, with the decrement interval between the cycles, the next exceeded fault
/// threshold power cycles it, and does not mark it faulty.
pub proof fn law_old_recoveries_do_not_count(
    device: SupervisedModel,
    last: nat,
    times: Seq<nat>,
    now: nat,
)
    requires
        device.fdir.recovery.counter.last_decrement == Some(last),
        device.fdir.recovery.counter.fault_count == times.len(),
        device.fdir.recovery.counter.failure_threshold >= 1,
        device.fdir.recovery.health() is None || device.fdir.recovery.health() == Some(
            HealthState::Healthy,
        ),
        spaced(last, times, device.fdir.recovery.counter.decrement_after),
        device.fdir.counter.fault_count >= device.fdir.counter.failure_threshold,
        device.modes.target is None,
        device.modes.cycle is Idle,
        device.modes.current != DeviceMode::Off,
    ensures
        ({
            let decayed = after_cycles(device, times);
            let after = decayed.after_fault(now);
            &&& decayed.fdir.recovery.counter.fault_count == 0
            &&& after.fdir.recovery.health() == Some(HealthState::NeedsRecovery)
            &&& after.fdir.events == device.fdir.events.push(
                FdirEvent::FaultThresholdExceeded,
            ).push(FdirEvent::Recovery(RecoveryEvent::Started))
            &&& after.modes.target == Some(DeviceMode::Off)
            &&& after.modes.reported_mode() == device.modes.current
        }),
{
    lemma_recoveries_decay(device, last, times);
    lemma_device_mode_off();
}

/// Every cycle forgets one recovery, and touches nothing but the recovery counter.
proof fn lemma_recoveries_decay(device: SupervisedModel, last: nat, times: Seq<nat>)
    requires
        device.fdir.recovery.counter.last_decrement == Some(last),
        device.fdir.recovery.counter.fault_count >= times.len(),
        !device.fdir.recovery.needs_recovery(),
        spaced(last, times, device.fdir.recovery.counter.decrement_after),
    ensures
        ({
            let after = after_cycles(device, times);
            &&& after.modes == device.modes
            &&& after.fdir == (FdirModel {
                recovery: RecoveryModel {
                    counter: CounterModel {
                        fault_count: (device.fdir.recovery.counter.fault_count
                            - times.len()) as nat,
                        last_decrement: Some(latest(last, times)),
                        ..device.fdir.recovery.counter
                    },
                    ..device.fdir.recovery
                },
                ..device.fdir
            })
        }),
    decreases times.len(),
{
    if times.len() > 0 {
        let before = times.drop_last();
        lemma_recoveries_decay(device, last, before);
    }
}

/// Successful communication forgets a fault once the decrement interval passed, and changes
/// nothing else.
pub proof fn law_success_forgets_faults(fdir: FdirModel, last: nat, now: nat)
    requires
        fdir.counter.last_decrement == Some(last),
        fdir.counter.decrement_after > 0,
    ensures
        ({
            let after = fdir.after_success(now);
            &&& after.counter.fault_count == (if fdir.counter.fault_count > 0 && last
                + fdir.counter.decrement_after <= now {
                fdir.counter.fault_count - 1
            } else {
                fdir.counter.fault_count as int
            })
            &&& after.recovery == fdir.recovery
            &&& after.events == fdir.events
            &&& after.off_duration == fdir.off_duration
            &&& after.name == fdir.name
            &&& after.clock == fdir.clock
        }),
{
}

/// The parts of the FDIR which no operation changes.
pub open spec fn same_supervision(a: FdirModel, b: FdirModel) -> bool {
    &&& a.name == b.name
    &&& a.off_duration == b.off_duration
    &&& a.clock == b.clock
    &&& a.counter.failure_threshold == b.counter.failure_threshold
    &&& a.counter.decrement_after == b.counter.decrement_after
    &&& a.recovery.id == b.recovery.id
    &&& a.recovery.clock == b.recovery.clock
    &&& a.recovery.counter.failure_threshold == b.recovery.counter.failure_threshold
    &&& a.recovery.counter.decrement_after == b.recovery.counter.decrement_after
}

/// No operation changes the settings of the FDIR.
pub proof fn law_supervision_settings_are_kept(
    device: SupervisedModel,
    restore_mode: DeviceMode,
    now: nat,
    mode_now: nat,
)
    ensures
        same_supervision(device.cycled_by(now, mode_now).fdir, device.fdir),
        same_supervision(device.after_fault_by(now, mode_now).fdir, device.fdir),
        same_supervision(
            device.after_power_cycle_failed_by(restore_mode, now, mode_now).fdir,
            device.fdir,
        ),
        same_supervision(device.fdir.after_success(now), device.fdir),
        same_supervision(device.fdir.after_mode_command(device.modes), device.fdir),
        same_supervision(device.fdir.after_power_cycle_done(), device.fdir),
{
}

/// A cycle neither counts nor forgets faults. If no recovery is needed, it changes neither the
/// mode nor the health, and is no event.
pub proof fn law_quiet_cycle(device: SupervisedModel, now: nat)
    ensures
        device.cycled(now).fdir.counter == device.fdir.counter,
        device.fdir.recovery.health() != Some(HealthState::NeedsRecovery) ==> {
            &&& device.cycled(now).modes == device.modes
            &&& device.cycled(now).fdir.recovery.entries == device.fdir.recovery.entries
            &&& device.cycled(now).fdir.events == device.fdir.events
        },
{
}

/// Faults and recoveries are timed by the clock of the FDIR, and transitions by the clock of the
/// mode helper.
pub proof fn law_every_part_keeps_its_time(
    device: SupervisedModel,
    restore_mode: DeviceMode,
    now: nat,
    mode_now: nat,
)
    ensures
        ({
            let cycled = device.cycled_by(now, mode_now);
            let faulted = device.after_fault_by(now, mode_now);
            let failed = device.after_power_cycle_failed_by(restore_mode, now, mode_now);
            &&& cycled.modes == device.modes || cycled.modes.started == Some(mode_now)
            &&& faulted.modes == device.modes || faulted.modes.started == Some(mode_now)
            &&& failed.modes == device.modes || failed.modes.started == Some(mode_now)
            &&& device.fdir.counter.fault_count == 0
                ==> faulted.fdir.counter.last_decrement == Some(now)
            &&& faulted.fdir.recovery == device.fdir.recovery
                || device.fdir.recovery.counter.fault_count > 0
                || faulted.fdir.recovery.counter.last_decrement == Some(now)
            &&& failed.fdir.recovery == device.fdir.recovery
                || device.fdir.recovery.counter.fault_count > 0
                || failed.fdir.recovery.counter.last_decrement == Some(now)
        }),
{
}

/// A fault above the threshold costs a recovery attempt, and so does a failed power cycle.
pub proof fn law_recovery_attempts_are_counted(
    device: SupervisedModel,
    restore_mode: DeviceMode,
    now: nat,
)
    ensures
        ({
            let attempts = device.fdir.recovery.counter.fault_count + 1;
            let allowed = device.fdir.recovery.counter.failure_threshold;
            let counted = if attempts > allowed {
                0
            } else {
                attempts as int
            };
            &&& device.fdir.counter.fault_count + 1 > device.fdir.counter.failure_threshold && (
            device.fdir.recovery.health() is None || device.fdir.recovery.health() == Some(
                HealthState::Healthy,
            )) ==> device.after_fault(now).fdir.recovery.counter.fault_count == counted
            &&& device.fdir.recovery.health() == Some(HealthState::NeedsRecovery)
                ==> device.after_power_cycle_failed(
                restore_mode,
                now,
            ).fdir.recovery.counter.fault_count == counted
        }),
{
}

/// A fault below the threshold adds one to the fault count and does nothing else.
pub proof fn law_tolerated_fault_adds_one(device: SupervisedModel, now: nat)
    requires
        device.fdir.counter.fault_count + 1 <= device.fdir.counter.failure_threshold,
    ensures
        ({
            let after = device.after_fault(now);
            &&& after.fdir.counter.fault_count == device.fdir.counter.fault_count + 1
            &&& after.fdir.recovery == device.fdir.recovery
            &&& after.fdir.events == device.fdir.events
            &&& after.modes == device.modes
        }),
{
}

/// The power cycles of the FDIR last as long as it is configured, and restore the mode the device
/// was in.
pub proof fn law_recovery_uses_the_off_duration(device: SupervisedModel, now: nat)
    requires
        device.fdir.recovery.health() == Some(HealthState::NeedsRecovery),
        device.modes.target is None,
        device.modes.cycle is Idle,
        device.modes.current != DeviceMode::Off,
    ensures
        device.cycled(now).modes.off_duration == device.fdir.off_duration,
        device.cycled(now).modes.target == Some(DeviceMode::Off),
        device.cycled(now).modes.reported_mode() == device.modes.current,
        device.cycled(now).modes.current == device.modes.current,
{
    lemma_device_mode_off();
}

/// A mode command only touches the FDIR during a power cycle, which it ends.
pub proof fn law_mode_command_and_recovery(fdir: FdirModel, modes: ModeModel<DeviceMode>)
    ensures
        modes.cycle is Idle ==> fdir.after_mode_command(modes) == fdir,
        !(modes.cycle is Idle) ==> {
            &&& fdir.after_mode_command(modes).counter == fdir.counter
            &&& fdir.after_mode_command(modes).events == fdir.events
            &&& fdir.recovery.health() == Some(HealthState::NeedsRecovery)
                ==> fdir.after_mode_command(modes).recovery.health() == Some(HealthState::Healthy)
            &&& fdir.recovery.health() != Some(HealthState::NeedsRecovery)
                ==> fdir.after_mode_command(modes).recovery == fdir.recovery
        },
{
}

/// A new FDIR tolerates two recoveries, forgets one of them every 60 seconds and keeps the device
/// off for half a second. There are no recoveries and events yet.
pub proof fn law_supervision_defaults(
    name: Seq<char>,
    id: RawComponentId,
    entries: Map<RawComponentId, HealthState>,
    counter: CounterModel,
    clock: Clock,
)
    ensures
        ({
            let fdir = FdirModel::fresh(name, id, entries, counter, clock);
            &&& fdir.name == name
            &&& fdir.counter == counter
            &&& fdir.recovery.id == id
            &&& fdir.recovery.entries == entries
            &&& fdir.recovery.counter.fault_count == 0
            &&& fdir.recovery.counter.failure_threshold == 2
            &&& fdir.recovery.counter.decrement_after == 60 * 1_000_000_000
            &&& fdir.off_duration == 500 * 1_000_000
            &&& fdir.events.len() == 0
            &&& fdir.clock == clock
        }),
{
}

/// A device which is given up on is switched off on nobody's behalf, which ends a power cycle. If
/// it is already being switched off, that goes on as it is.
pub proof fn law_given_up_device_is_switched_off(device: SupervisedModel, now: nat)
    requires
        device.fdir.counter.fault_count >= device.fdir.counter.failure_threshold,
        device.fdir.recovery.health() is None || device.fdir.recovery.health() == Some(
            HealthState::Healthy,
        ),
        device.fdir.recovery.counter.fault_count
            >= device.fdir.recovery.counter.failure_threshold,
    ensures
        ({
            let after = device.after_fault(now);
            &&& device.modes.target == Some(DeviceMode::Off) ==> after.modes == device.modes
            &&& device.modes.target != Some(DeviceMode::Off) ==> {
                &&& after.modes.target == Some(DeviceMode::Off)
                &&& after.modes.commander is None
                &&& after.modes.started == Some(now)
                &&& after.modes.cycle is Idle
                &&& after.modes.current == device.modes.current
            }
            &&& after.fdir.recovery.health() == Some(HealthState::Faulty)
            &&& after.fdir.recovery.counter.fault_count == 0
            &&& after.fdir.counter.fault_count == 0
            &&& after.fdir.events == device.fdir.events.push(
                FdirEvent::FaultThresholdExceeded,
            ).push(FdirEvent::Recovery(RecoveryEvent::ThresholdExceeded))
        }),
{
}

/// A recovery which becomes necessary during a transition does not start before its end: the device
/// needs it, but nothing else happens. A device which is off needs none, and is healthy at once.
pub proof fn law_recovery_during_transition(device: SupervisedModel, now: nat)
    requires
        device.fdir.counter.fault_count >= device.fdir.counter.failure_threshold,
        device.fdir.recovery.health() is None || device.fdir.recovery.health() == Some(
            HealthState::Healthy,
        ),
        device.fdir.recovery.counter.fault_count < device.fdir.recovery.counter.failure_threshold,
        device.modes.cycle is Idle,
        device.modes.target is Some || device.modes.current == DeviceMode::Off,
    ensures
        ({
            let after = device.after_fault(now);
            &&& after.modes == device.modes
            &&& after.fdir.recovery.health() == Some(
                if device.modes.target is Some {
                    HealthState::NeedsRecovery
                } else {
                    HealthState::Healthy
                },
            )
            &&& after.fdir.recovery.counter.fault_count
                == device.fdir.recovery.counter.fault_count + 1
            &&& after.fdir.events == device.fdir.events.push(FdirEvent::FaultThresholdExceeded)
        }),
{
}

/// A failed power cycle is announced. It is tried again with the same mode and off duration as long
/// as there are not more attempts than the threshold. One more switches the device off for good.
pub proof fn law_power_cycle_is_retried(
    device: SupervisedModel,
    restore_mode: DeviceMode,
    now: nat,
)
    requires
        device.fdir.recovery.health() == Some(HealthState::NeedsRecovery),
    ensures
        ({
            let after = device.after_power_cycle_failed(restore_mode, now);
            let retried = device.fdir.recovery.counter.fault_count
                < device.fdir.recovery.counter.failure_threshold;
            let failed = device.fdir.events.push(FdirEvent::Recovery(RecoveryEvent::Failed));
            &&& retried ==> {
                &&& after.modes.target == Some(DeviceMode::Off)
                &&& after.modes.reported_mode() == restore_mode
                &&& after.modes.started == Some(now)
                &&& after.modes.off_duration == device.fdir.off_duration
                &&& after.fdir.recovery.health() == Some(HealthState::NeedsRecovery)
                &&& after.fdir.events == failed.push(FdirEvent::Recovery(RecoveryEvent::Started))
            }
            &&& !retried ==> {
                &&& after.modes.target == Some(DeviceMode::Off)
                &&& device.modes.target is None ==> after.modes.cycle is Idle
                &&& after.fdir.recovery.health() == Some(HealthState::Faulty)
                &&& after.fdir.events == failed.push(
                    FdirEvent::Recovery(RecoveryEvent::ThresholdExceeded),
                )
            }
            &&& after.fdir.counter == device.fdir.counter
            &&& after.modes.current == device.modes.current
        }),
{
    lemma_device_mode_off();
}

} // verus!
