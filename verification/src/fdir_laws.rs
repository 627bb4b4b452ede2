//! Laws of fault counting and recovery.

use vstd::prelude::*;

use crate::fdir::{CounterModel, FaultResponse, RecoveryModel};
use crate::health::{health_entry, HealthState, RawComponentId};

verus! {

/// The fault count never exceeds the threshold once it was checked.
pub proof fn law_checked_count_is_tolerated(counter: CounterModel)
    ensures
        counter.checked().fault_count <= counter.failure_threshold,
        !counter.checked().exceeded(),
{
}

/// A fresh counter tolerates exactly as many faults as its threshold, whenever they occur: up to
/// there every fault is counted and none is reported, and the next one is reported and resets
/// the count.
pub proof fn law_threshold_faults_are_tolerated(
    threshold: nat,
    decrement_after: nat,
    times: Seq<nat>,
    now: nat,
)
    requires
        times.len() <= threshold,
    ensures
        ({
            let counter = CounterModel::fresh(threshold, decrement_after).after_checked_faults(
                times,
            );
            &&& counter.fault_count == times.len()
            &&& counter.failure_threshold == threshold
            &&& counter.incremented(now).exceeded() == (times.len() == threshold)
            &&& times.len() == threshold ==> counter.incremented(now).checked().fault_count == 0
        }),
    decreases times.len(),
{
    if times.len() > 0 {
        law_threshold_faults_are_tolerated(
            threshold,
            decrement_after,
            times.drop_last(),
            times.last(),
        );
    }
}

/// The decrement clock of a counter runs whenever there are faults to forget.
pub open spec fn decrement_clock_runs(counter: CounterModel) -> bool {
    counter.fault_count > 0 ==> counter.last_decrement is Some
}

/// A fresh counter has a running decrement clock as soon as there are faults, and every
/// operation keeps it that way.
pub proof fn law_decrement_clock_runs(
    counter: CounterModel,
    threshold: nat,
    decrement_after: nat,
    n: nat,
    now: nat,
)
    requires
        decrement_clock_runs(counter),
    ensures
        decrement_clock_runs(CounterModel::fresh(threshold, decrement_after)),
        decrement_clock_runs(counter.incremented(now)),
        decrement_clock_runs(counter.incremented_n(n, now)),
        decrement_clock_runs(counter.decremented(now)),
        decrement_clock_runs(counter.checked()),
        decrement_clock_runs(counter.cleared()),
{
}

/// Every fault is forgotten eventually: once `decrement_after` has passed on the decrement clock,
/// a decrement is due.
pub proof fn law_faults_are_forgotten(counter: CounterModel, now: nat)
    requires
        decrement_clock_runs(counter),
        counter.fault_count > 0,
        now >= counter.last_decrement->0 + counter.decrement_after,
    ensures
        counter.decrement_due(now),
        counter.decremented(now).fault_count == counter.fault_count - 1,
{
}

/// Two decrements are at least `decrement_after` apart, and so are the first fault and the first
/// decrement.
pub proof fn law_decrements_are_spaced(counter: CounterModel, first: nat, second: nat)
    requires
        counter.decrement_after > 0,
    ensures
        counter.decrement_due(first) && counter.decremented(first).decrement_due(second) ==> second
            >= first + counter.decrement_after,
        counter.fault_count == 0 && counter.incremented(first).decrement_due(second) ==> second
            >= first + counter.decrement_after,
{
}

/// Counting `n` faults at once is the same as counting them one after the other.
pub proof fn law_increment_n_is_repeated_increment(counter: CounterModel, n: nat, now: nat)
    ensures
        counter.incremented_n(0, now) == counter,
        counter.incremented_n(n + 1, now) == counter.incremented_n(n, now).incremented(now),
{
}

/// Operation which the recovery logic performs on its own, without a command of ground.
pub enum AutonomousOp {
    /// A fault counter of the component exceeded its threshold.
    Fault { now: nat },
    /// The power cycle completed.
    RecoveryDone,
    /// The power cycle failed.
    RecoveryFailed { now: nat },
    /// Time passed.
    Time { now: nat },
}

/// The recovery state after one autonomous operation.
pub open spec fn after_op(recovery: RecoveryModel, op: AutonomousOp) -> RecoveryModel {
    match op {
        AutonomousOp::Fault { now } => recovery.after_fault(now),
        AutonomousOp::RecoveryDone => recovery.after_recovery_done(),
        AutonomousOp::RecoveryFailed { now } => recovery.after_recovery_failed(now),
        AutonomousOp::Time { now } => recovery.after_time(now),
    }
}

/// The recovery state after a sequence of autonomous operations.
pub open spec fn after_ops(recovery: RecoveryModel, ops: Seq<AutonomousOp>) -> RecoveryModel
    decreases ops.len(),
{
    if ops.len() == 0 {
        recovery
    } else {
        after_op(after_ops(recovery, ops.drop_last()), ops.last())
    }
}

/// The component was given up on, or ground controls it.
pub open spec fn is_final(health: Option<HealthState>) -> bool {
    ||| health == Some(HealthState::ExternalControl)
    ||| health == Some(HealthState::PermanentFaulty)
    ||| health == Some(HealthState::Faulty)
}

/// No sequence of autonomous operations changes the health of a component which was given up on
/// or which ground controls: only a health command does. Faults and failed power cycles of such
/// a component are ignored.
pub proof fn law_final_health_is_kept(recovery: RecoveryModel, ops: Seq<AutonomousOp>)
    requires
        is_final(recovery.health()),
    ensures
        after_ops(recovery, ops).entries == recovery.entries,
        after_ops(recovery, ops).id == recovery.id,
        after_ops(recovery, ops).health() == recovery.health(),
        after_ops(recovery, ops).fault_response() == FaultResponse::Ignored,
        after_ops(recovery, ops).recovery_failed_response() == FaultResponse::Ignored,
    decreases ops.len(),
{
    if ops.len() > 0 {
        law_final_health_is_kept(recovery, ops.drop_last());
    }
}

/// The recovery of one component never changes the health of another one.
pub proof fn law_other_components_are_untouched(
    recovery: RecoveryModel,
    ops: Seq<AutonomousOp>,
    other: RawComponentId,
)
    requires
        other != recovery.id,
    ensures
        after_ops(recovery, ops).id == recovery.id,
        health_entry(after_ops(recovery, ops).entries, other) == health_entry(
            recovery.entries,
            other,
        ),
    decreases ops.len(),
{
    if ops.len() > 0 {
        law_other_components_are_untouched(recovery, ops.drop_last(), other);
    }
}

/// The recovery state after one fault at each of the given times, each of them followed by a
/// completed power cycle.
pub open spec fn after_recoveries(recovery: RecoveryModel, times: Seq<nat>) -> RecoveryModel
    decreases times.len(),
{
    if times.len() == 0 {
        recovery
    } else {
        after_recoveries(recovery, times.drop_last()).after_fault(
            times.last(),
        ).after_recovery_done()
    }
}

/// A component is recovered exactly as often as the recovery threshold allows: every fault up to
/// there leads to a power cycle and a healthy component, and the next fault marks the component
/// faulty and resets the recovery count.
pub proof fn law_recovered_until_threshold(recovery: RecoveryModel, times: Seq<nat>, now: nat)
    requires
        !recovery.ignores_faults(),
        recovery.counter.fault_count == 0,
        times.len() <= recovery.counter.failure_threshold,
    ensures
        ({
            let after = after_recoveries(recovery, times);
            &&& after.counter.fault_count == times.len()
            &&& after.counter.failure_threshold == recovery.counter.failure_threshold
            &&& !after.ignores_faults()
            &&& times.len() > 0 ==> after.health() == Some(HealthState::Healthy)
            &&& times.len() < recovery.counter.failure_threshold ==> {
                &&& after.fault_response() == FaultResponse::Recover
                &&& after.after_fault(now).needs_recovery()
            }
            &&& times.len() == recovery.counter.failure_threshold ==> {
                &&& after.fault_response() == FaultResponse::SetFaulty
                &&& after.after_fault(now).health() == Some(HealthState::Faulty)
                &&& after.after_fault(now).counter.fault_count == 0
            }
        }),
    decreases times.len(),
{
    if times.len() > 0 {
        law_recovered_until_threshold(recovery, times.drop_last(), times.last());
    }
}

/// A failed power cycle costs a recovery attempt like any other fault: it leads to the response
/// and the count which a fault of the healthy component would have led to.
pub proof fn law_failed_recovery_costs_an_attempt(recovery: RecoveryModel, now: nat)
    requires
        recovery.needs_recovery(),
    ensures
        ({
            let healthy = recovery.with_health(HealthState::Healthy);
            &&& recovery.recovery_failed_response() == healthy.fault_response()
            &&& recovery.after_recovery_failed(now).counter == healthy.after_fault(now).counter
            &&& recovery.after_recovery_failed(now).entries =~= healthy.after_fault(now).entries
        }),
        recovery.recovery_failed_response() == FaultResponse::Recover
            || recovery.recovery_failed_response() == FaultResponse::SetFaulty,
{
}

/// Every fault counts once. Only the first fault starts the decrement clock: another one does not
/// delay the next decrement.
pub proof fn law_every_fault_counts_once(counter: CounterModel, now: nat)
    ensures
        ({
            let after = counter.incremented(now);
            &&& after.fault_count == counter.fault_count + 1
            &&& counter.fault_count == 0 ==> after.last_decrement == Some(now)
            &&& counter.fault_count > 0 ==> after.last_decrement == counter.last_decrement
            &&& after.failure_threshold == counter.failure_threshold
            &&& after.decrement_after == counter.decrement_after
        }),
{
}

/// A counted fault is forgotten exactly if the decrement interval passed on the decrement clock,
/// which starts again then. Otherwise, nothing changes.
pub proof fn law_decrement_needs_the_interval(counter: CounterModel, last: nat, now: nat)
    requires
        counter.last_decrement == Some(last),
    ensures
        ({
            let after = counter.decremented(now);
            let interval_over = last + counter.decrement_after <= now || counter.decrement_after
                == 0;
            &&& counter.fault_count > 0 && interval_over ==> {
                &&& after.fault_count == counter.fault_count - 1
                &&& after.last_decrement == Some(now)
            }
            &&& counter.fault_count == 0 || !interval_over ==> after == counter
            &&& counter.decrement_due(now) == (counter.fault_count > 0 && interval_over)
            &&& after.failure_threshold == counter.failure_threshold
            &&& after.decrement_after == counter.decrement_after
        }),
{
}

/// Exceeding means that there are more faults than the threshold, and is the only reason to reset
/// the count. Only clearing stops the decrement clock.
pub proof fn law_counter_resets(counter: CounterModel)
    ensures
        counter.exceeded() == (counter.fault_count > counter.failure_threshold),
        counter.fault_count > counter.failure_threshold ==> counter.checked() == (CounterModel {
            fault_count: 0,
            ..counter
        }),
        counter.fault_count <= counter.failure_threshold ==> counter.checked() == counter,
        counter.cleared().fault_count == 0,
        counter.cleared().last_decrement is None,
        counter.cleared().failure_threshold == counter.failure_threshold,
        counter.cleared().decrement_after == counter.decrement_after,
{
}

/// The health of the component is the entry of the component, and setting it changes this entry
/// alone.
pub proof fn law_health_is_the_entry(recovery: RecoveryModel, health: HealthState)
    ensures
        recovery.entries.dom().contains(recovery.id) ==> recovery.health() == Some(
            recovery.entries[recovery.id],
        ),
        !recovery.entries.dom().contains(recovery.id) ==> recovery.health() is None,
        recovery.with_health(health).entries == recovery.entries.insert(recovery.id, health),
        recovery.with_health(health).id == recovery.id,
        recovery.with_health(health).counter == recovery.counter,
        recovery.with_health(health).clock == recovery.clock,
        recovery.needs_recovery() == (recovery.health() == Some(HealthState::NeedsRecovery)),
{
}

/// A recovery is forgotten once the decrement interval passed, and never earlier. Time changes
/// nothing else.
pub proof fn law_recoveries_are_forgotten(recovery: RecoveryModel, last: nat, now: nat)
    requires
        recovery.counter.last_decrement == Some(last),
        recovery.counter.decrement_after > 0,
    ensures
        ({
            let count = recovery.counter.fault_count;
            let after = recovery.after_time(now);
            &&& after.counter.fault_count == (if count > 0 && last
                + recovery.counter.decrement_after <= now {
                count - 1
            } else {
                count as int
            })
            &&& after.entries == recovery.entries
            &&& after.id == recovery.id
            &&& after.clock == recovery.clock
        }),
{
}

/// A fault of a healthy component, or of one without an entry, costs a recovery attempt. As long as
/// there are not more attempts than the threshold, the component needs a recovery. One more makes
/// it faulty and starts the count again. A fault of any other component changes nothing.
pub proof fn law_fault_is_escalated(recovery: RecoveryModel, now: nat)
    ensures
        ({
            let after = recovery.after_fault(now);
            let response = recovery.fault_response();
            let working = !recovery.entries.dom().contains(recovery.id)
                || recovery.entries[recovery.id] == HealthState::Healthy;
            let attempts = recovery.counter.fault_count + 1;
            &&& !working ==> after == recovery && response == FaultResponse::Ignored
            &&& working && attempts <= recovery.counter.failure_threshold ==> {
                &&& response == FaultResponse::Recover
                &&& after.entries == recovery.entries.insert(
                    recovery.id,
                    HealthState::NeedsRecovery,
                )
                &&& after.counter.fault_count == attempts
            }
            &&& working && attempts > recovery.counter.failure_threshold ==> {
                &&& response == FaultResponse::SetFaulty
                &&& after.entries == recovery.entries.insert(recovery.id, HealthState::Faulty)
                &&& after.counter.fault_count == 0
            }
        }),
{
}

/// A completed power cycle makes a component which needed it healthy, and changes nothing else.
pub proof fn law_recovery_done_heals(recovery: RecoveryModel)
    ensures
        recovery.health() == Some(HealthState::NeedsRecovery) ==> recovery.after_recovery_done()
            == (RecoveryModel {
            entries: recovery.entries.insert(recovery.id, HealthState::Healthy),
            ..recovery
        }),
        recovery.health() != Some(HealthState::NeedsRecovery) ==> recovery.after_recovery_done()
            == recovery,
        recovery.health() != Some(HealthState::NeedsRecovery) ==> forall|now: nat|
            #[trigger] recovery.after_recovery_failed(now) == recovery,
{
}

/// No operation changes which component is supervised, the thresholds and intervals, or the clock.
pub proof fn law_recovery_settings_are_kept(recovery: RecoveryModel, ops: Seq<AutonomousOp>)
    ensures
        ({
            let after = after_ops(recovery, ops);
            &&& after.id == recovery.id
            &&& after.clock == recovery.clock
            &&& after.counter.failure_threshold == recovery.counter.failure_threshold
            &&& after.counter.decrement_after == recovery.counter.decrement_after
        }),
    decreases ops.len(),
{
    if ops.len() > 0 {
        law_recovery_settings_are_kept(recovery, ops.drop_last());
    }
}

/// A new counter has no faults, and its decrement clock is stopped.
pub proof fn law_new_counter(failure_threshold: nat, decrement_after: nat)
    ensures
        CounterModel::fresh(failure_threshold, decrement_after).fault_count == 0,
        CounterModel::fresh(failure_threshold, decrement_after).failure_threshold
            == failure_threshold,
        CounterModel::fresh(failure_threshold, decrement_after).decrement_after == decrement_after,
        CounterModel::fresh(failure_threshold, decrement_after).last_decrement is None,
{
}

} // verus!
