//! # FDIR (Fault Detection, Isolation and Recovery) helpers
//!
//! A fault counter tracks a fault count, decrements it over time when faults stop occurring, and
//! reports when a configured failure threshold has been exceeded. This is the typical building
//! block used to turn a stream of transient error reports into a single "component is faulty"
//! decision without reacting to the first isolated error.
//!
//! Pick a variant based on what clock is available:
//!
//! - [FaultCounterStd]: [std::time::Instant], read through a [Clock].
//! - [FaultCounterEmbassy]: `embassy_time::Instant`.
//!
//! [RecoveryFdir] builds on top of that. It decides whether a component is power cycled or
//! marked faulty when one of its fault counters exceeds its threshold, and keeps the health
//! table up to date during the recovery.

use vstd::prelude::*;

use crate::health::{health_entry, HealthState, HealthTableProvider, RawComponentId};
use crate::time::{elapsed, Clock, Duration, Instant};

verus! {

/// Events related to the recovery of a component. Components are expected to embed this into
/// their own event type.
#[derive(Debug, Clone, Copy, PartialEq, Eq, Structural)]
pub enum RecoveryEvent {
    /// The component health is [HealthState::NeedsRecovery] and it is being power cycled.
    Started,
    /// The power cycle completed and the component is healthy again.
    Done,
    /// The power cycle failed. This costs a recovery attempt like any other fault, so it is
    /// followed by either a new recovery or [RecoveryEvent::ThresholdExceeded].
    Failed,
    /// The component was recovered too often, it was marked faulty.
    ThresholdExceeded,
}

/// Outcome of [RecoveryFdir::handle_fault] and [RecoveryFdir::recovery_failed].
#[derive(Debug, Clone, Copy, PartialEq, Eq, Structural)]
pub enum FaultResponse {
    /// The component is already faulty, recovering or externally controlled, so nothing was
    /// changed.
    Ignored,
    /// The health was set to [HealthState::NeedsRecovery]. The component should be power cycled.
    Recover,
    /// The component was recovered too often and its health was set to [HealthState::Faulty].
    /// The component should be switched off.
    SetFaulty,
}

/// Mathematical model of a fault counter. Times are counted in the unit of the clock in use.
pub struct CounterModel {
    /// Faults which were counted and neither decremented nor reset yet.
    pub fault_count: nat,
    /// Highest fault count which is still tolerated.
    pub failure_threshold: nat,
    /// Minimum time between two decrements.
    pub decrement_after: nat,
    /// Start of the decrement clock, if it is running.
    pub last_decrement: Option<nat>,
}

impl CounterModel {
    /// Counter without any faults.
    pub open spec fn fresh(failure_threshold: nat, decrement_after: nat) -> CounterModel {
        CounterModel { fault_count: 0, failure_threshold, decrement_after, last_decrement: None }
    }

    /// One more fault. The first one starts the decrement clock.
    pub open spec fn incremented(self, now: nat) -> CounterModel {
        CounterModel {
            fault_count: self.fault_count + 1,
            last_decrement: if self.fault_count == 0 {
                Some(now)
            } else {
                self.last_decrement
            },
            ..self
        }
    }

    /// `n` more faults at once.
    pub open spec fn incremented_n(self, n: nat, now: nat) -> CounterModel {
        if n == 0 {
            self
        } else {
            CounterModel { fault_count: self.fault_count + n, ..self.incremented(now) }
        }
    }

    /// There is a fault to forget and the decrement clock ran for long enough. A reading before
    /// the start of the decrement clock counts as no time passed.
    pub open spec fn decrement_due(self, now: nat) -> bool {
        &&& self.fault_count > 0
        &&& self.last_decrement matches Some(last)
            && elapsed(last, now) >= self.decrement_after
    }

    /// One fault less if a decrement is due, which restarts the decrement clock.
    pub open spec fn decremented(self, now: nat) -> CounterModel {
        if self.decrement_due(now) {
            CounterModel {
                fault_count: (self.fault_count - 1) as nat,
                last_decrement: Some(now),
                ..self
            }
        } else {
            self
        }
    }

    /// The fault count exceeds the failure threshold.
    pub open spec fn exceeded(self) -> bool {
        self.fault_count > self.failure_threshold
    }

    /// The fault count is reset if it exceeds the failure threshold.
    pub open spec fn checked(self) -> CounterModel {
        if self.exceeded() {
            CounterModel { fault_count: 0, ..self }
        } else {
            self
        }
    }

    /// No faults, and the decrement clock is stopped.
    pub open spec fn cleared(self) -> CounterModel {
        CounterModel { fault_count: 0, last_decrement: None, ..self }
    }

    /// The counter after `n` faults at the given times, each of them counted and checked.
    pub open spec fn after_checked_faults(self, times: Seq<nat>) -> CounterModel
        decreases times.len(),
    {
        if times.len() == 0 {
            self
        } else {
            self.after_checked_faults(times.drop_last()).incremented(times.last()).checked()
        }
    }
}

/// Fault counter backed by the monotonic clock of the standard library.
///
/// Every operation which needs the time exists twice: once reading the clock of the counter, and
/// once with the reading as an argument.
#[derive(Debug, Clone)]
pub struct FaultCounterStd {
    fault_count: u32,
    failure_threshold: u32,
    decrement_after: Duration,
    last_decrement: Option<Instant>,
    clock: Clock,
}

impl View for FaultCounterStd {
    type V = CounterModel;

    closed spec fn view(&self) -> CounterModel {
        CounterModel {
            fault_count: self.fault_count as nat,
            failure_threshold: self.failure_threshold as nat,
            decrement_after: self.decrement_after.nanos as nat,
            last_decrement: match self.last_decrement {
                Some(last) => Some(last.nanos as nat),
                None => None,
            },
        }
    }
}

impl FaultCounterStd {
    /// Create a new [FaultCounterStd] with a clock of its own.
    ///
    /// - `failure_threshold`: threshold above which [Self::above_threshold] returns `true` and
    ///   resets the internal count.
    /// - `decrement_after`: minimum duration between automatic decrements performed by
    ///   [Self::try_decrement].
    pub fn new(failure_threshold: u32, decrement_after: Duration) -> (counter: Self)
        ensures
            counter@ == CounterModel::fresh(
                failure_threshold as nat,
                decrement_after.nanos as nat,
            ),
    {
        Self::with_clock(failure_threshold, decrement_after, Clock::new())
    }

    /// Create a new [FaultCounterStd] which reads the given clock.
    pub fn with_clock(failure_threshold: u32, decrement_after: Duration, clock: Clock) -> (counter:
        Self)
        ensures
            counter@ == CounterModel::fresh(
                failure_threshold as nat,
                decrement_after.nanos as nat,
            ),
            counter.spec_clock() == clock,
    {
        FaultCounterStd {
            fault_count: 0,
            failure_threshold,
            decrement_after,
            last_decrement: None,
            clock,
        }
    }

    /// The clock of this counter.
    pub closed spec fn spec_clock(&self) -> Clock {
        self.clock
    }

    /// The clock of this counter.
    pub fn clock(&self) -> (clock: Clock)
        ensures
            clock == self.spec_clock(),
    {
        self.clock
    }

    /// Current fault count.
    pub fn fault_count(&self) -> (count: u32)
        ensures
            count == self@.fault_count,
    {
        self.fault_count
    }

    /// Increase the fault count by `1`.
    ///
    /// If the counter was previously `0`, this starts a new decrement clock.
    pub fn increment(&mut self)
        requires
            old(self)@.fault_count < u32::MAX,
        ensures
            exists|now: nat| final(self)@ == #[trigger] old(self)@.incremented(now),
            final(self).spec_clock() == old(self).spec_clock(),
    {
        let now = self.clock.now();
        self.increment_at(now);
        assert(self@ == old(self)@.incremented(now.nanos as nat));
    }

    /// [Self::increment] at the time `now`.
    pub fn increment_at(&mut self, now: Instant)
        requires
            old(self)@.fault_count < u32::MAX,
        ensures
            final(self)@ == old(self)@.incremented(now.nanos as nat),
            final(self).spec_clock() == old(self).spec_clock(),
    {
        if self.fault_count == 0 {
            self.last_decrement = Some(now);
        }
        self.fault_count = self.fault_count + 1;
    }

    /// Increase the fault count by `n`.
    pub fn increment_n(&mut self, n: u32)
        requires
            old(self)@.fault_count + n <= u32::MAX,
        ensures
            exists|now: nat| final(self)@ == #[trigger] old(self)@.incremented_n(n as nat, now),
            final(self).spec_clock() == old(self).spec_clock(),
    {
        let now = self.clock.now();
        self.increment_n_at(n, now);
        assert(self@ == old(self)@.incremented_n(n as nat, now.nanos as nat));
    }

    /// [Self::increment_n] at the time `now`.
    pub fn increment_n_at(&mut self, n: u32, now: Instant)
        requires
            old(self)@.fault_count + n <= u32::MAX,
        ensures
            final(self)@ == old(self)@.incremented_n(n as nat, now.nanos as nat),
            final(self).spec_clock() == old(self).spec_clock(),
    {
        let ghost start = self@;
        let mut counted: u32 = 0;
        while counted < n
            invariant
                counted <= n,
                start.fault_count + n <= u32::MAX,
                self@ == start.incremented_n(counted as nat, now.nanos as nat),
                self.spec_clock() == old(self).spec_clock(),
            decreases n - counted,
        {
            self.increment_at(now);
            counted = counted + 1;
        }
    }

    fn has_decrement_timedout(&self, now: Instant) -> (timedout: bool)
        ensures
            self@.fault_count > 0 ==> timedout == self@.decrement_due(now.nanos as nat),
    {
        match self.last_decrement {
            Some(last_decrement) => {
                now.duration_since(last_decrement).nanos >= self.decrement_after.nanos
            },
            None => false,
        }
    }

    /// Decrease the fault count by `1` if the decrement timeout elapsed.
    ///
    /// Returns `true` if a decrement was performed, `false` otherwise. A decrement is only
    /// performed when the counter is non-zero and at least `decrement_after` has elapsed since
    /// the last decrement.
    pub fn try_decrement(&mut self) -> (decremented: bool)
        ensures
            exists|now: nat|
                {
                    &&& final(self)@ == #[trigger] old(self)@.decremented(now)
                    &&& decremented == old(self)@.decrement_due(now)
                },
            final(self).spec_clock() == old(self).spec_clock(),
    {
        let now = self.clock.now();
        let decremented = self.try_decrement_at(now);
        assert(self@ == old(self)@.decremented(now.nanos as nat));
        decremented
    }

    /// [Self::try_decrement] at the time `now`.
    pub fn try_decrement_at(&mut self, now: Instant) -> (decremented: bool)
        ensures
            final(self)@ == old(self)@.decremented(now.nanos as nat),
            decremented == old(self)@.decrement_due(now.nanos as nat),
            final(self).spec_clock() == old(self).spec_clock(),
    {
        if self.fault_count == 0 || !self.has_decrement_timedout(now) {
            return false;
        }
        self.last_decrement = Some(now);
        self.fault_count = self.fault_count - 1;
        true
    }

    /// Check whether the counter exceeded the failure threshold.
    ///
    /// Returns `true` when `fault_count > failure_threshold`. In that case, the counter is reset
    /// to `0`.
    pub fn above_threshold(&mut self) -> (above: bool)
        ensures
            final(self)@ == old(self)@.checked(),
            above == old(self)@.exceeded(),
            final(self).spec_clock() == old(self).spec_clock(),
    {
        if self.fault_count > self.failure_threshold {
            self.fault_count = 0;
            return true;
        }
        false
    }

    /// Convenience helper to increment once and immediately check the threshold.
    pub fn increment_and_check(&mut self) -> (above: bool)
        requires
            old(self)@.fault_count < u32::MAX,
        ensures
            exists|now: nat|
                {
                    &&& final(self)@ == (#[trigger] old(self)@.incremented(now)).checked()
                    &&& above == old(self)@.incremented(now).exceeded()
                },
            above == (old(self)@.fault_count + 1 > old(self)@.failure_threshold),
            final(self).spec_clock() == old(self).spec_clock(),
    {
        let now = self.clock.now();
        let above = self.increment_and_check_at(now);
        assert(self@ == old(self)@.incremented(now.nanos as nat).checked());
        above
    }

    /// [Self::increment_and_check] at the time `now`.
    pub fn increment_and_check_at(&mut self, now: Instant) -> (above: bool)
        requires
            old(self)@.fault_count < u32::MAX,
        ensures
            final(self)@ == old(self)@.incremented(now.nanos as nat).checked(),
            above == old(self)@.incremented(now.nanos as nat).exceeded(),
            final(self).spec_clock() == old(self).spec_clock(),
    {
        self.increment_at(now);
        self.above_threshold()
    }

    /// Clear the counter and decrement timing state.
    pub fn clear(&mut self)
        ensures
            final(self)@ == old(self)@.cleared(),
            final(self).spec_clock() == old(self).spec_clock(),
    {
        self.fault_count = 0;
        self.last_decrement = None;
    }

    /// Update the failure threshold used by [Self::above_threshold].
    pub fn set_failure_threshold(&mut self, threshold: u32)
        ensures
            final(self)@ == (CounterModel { failure_threshold: threshold as nat, ..old(self)@ }),
            final(self).spec_clock() == old(self).spec_clock(),
    {
        self.failure_threshold = threshold;
    }

    /// Update the minimum interval between automatic decrements.
    pub fn set_decrement_after(&mut self, duration: Duration)
        ensures
            final(self)@ == (CounterModel { decrement_after: duration.nanos as nat, ..old(self)@ }),
            final(self).spec_clock() == old(self).spec_clock(),
    {
        self.decrement_after = duration;
    }
}

/// Tick count of an embassy clock.
#[derive(Debug, Clone, Copy, PartialEq, Eq, Structural, Hash)]
pub struct EmbassyInstant {
    /// Ticks since system boot.
    pub ticks: u64,
}

/// Number of ticks between two readings of an embassy clock.
#[derive(Debug, Clone, Copy, PartialEq, Eq, Structural, Hash)]
pub struct EmbassyDuration {
    /// Number of ticks.
    pub ticks: u64,
}

/// Calls `embassy_time::Instant::now` and hands the tick count out. The result depends on the
/// time of the call, so nothing is claimed about it.
#[verifier::external_body]
fn embassy_now() -> EmbassyInstant {
    EmbassyInstant { ticks: embassy_time::Instant::now().as_ticks() }
}

/// Calls `embassy_time::Instant::duration_since`, which panics if `earlier` lies after `later`.
/// Otherwise, the duration is the difference of the tick counts.
#[verifier::external_body]
fn embassy_duration_since(later: EmbassyInstant, earlier: EmbassyInstant) -> (d: EmbassyDuration)
    requires
        earlier.ticks <= later.ticks,
    ensures
        d.ticks == later.ticks - earlier.ticks,
{
    let later_instant = embassy_time::Instant::from_ticks(later.ticks);
    let earlier_instant = embassy_time::Instant::from_ticks(earlier.ticks);
    EmbassyDuration { ticks: later_instant.duration_since(earlier_instant).as_ticks() }
}

/// Fault counter backed by `embassy_time::Instant`.
///
/// Every operation which needs the time exists twice: once reading the embassy clock, and once
/// with the reading as an argument.
#[derive(Debug, Clone, Copy)]
pub struct FaultCounterEmbassy {
    fault_count: u32,
    failure_threshold: u32,
    decrement_after: EmbassyDuration,
    last_decrement: Option<EmbassyInstant>,
}

impl View for FaultCounterEmbassy {
    type V = CounterModel;

    closed spec fn view(&self) -> CounterModel {
        CounterModel {
            fault_count: self.fault_count as nat,
            failure_threshold: self.failure_threshold as nat,
            decrement_after: self.decrement_after.ticks as nat,
            last_decrement: match self.last_decrement {
                Some(last) => Some(last.ticks as nat),
                None => None,
            },
        }
    }
}

impl FaultCounterEmbassy {
    /// Create a new [FaultCounterEmbassy].
    ///
    /// - `failure_threshold`: threshold above which [Self::above_threshold] returns `true` and
    ///   resets the internal count.
    /// - `decrement_after`: minimum duration between automatic decrements performed by
    ///   [Self::try_decrement].
    pub fn new(failure_threshold: u32, decrement_after: EmbassyDuration) -> (counter: Self)
        ensures
            counter@ == CounterModel::fresh(
                failure_threshold as nat,
                decrement_after.ticks as nat,
            ),
    {
        FaultCounterEmbassy {
            fault_count: 0,
            failure_threshold,
            decrement_after,
            last_decrement: None,
        }
    }

    /// Current fault count.
    pub fn fault_count(&self) -> (count: u32)
        ensures
            count == self@.fault_count,
    {
        self.fault_count
    }

    /// Increase the fault count by `1`.
    ///
    /// If the counter was previously `0`, this starts a new decrement clock.
    pub fn increment(&mut self)
        requires
            old(self)@.fault_count < u32::MAX,
        ensures
            exists|now: nat| final(self)@ == #[trigger] old(self)@.incremented(now),
    {
        let now = embassy_now();
        self.increment_at(now);
        assert(self@ == old(self)@.incremented(now.ticks as nat));
    }

    /// [Self::increment] at the time `now`.
    pub fn increment_at(&mut self, now: EmbassyInstant)
        requires
            old(self)@.fault_count < u32::MAX,
        ensures
            final(self)@ == old(self)@.incremented(now.ticks as nat),
    {
        if self.fault_count == 0 {
            self.last_decrement = Some(now);
        }
        self.fault_count = self.fault_count + 1;
    }

    /// Increase the fault count by `n`.
    pub fn increment_n(&mut self, n: u32)
        requires
            old(self)@.fault_count + n <= u32::MAX,
        ensures
            exists|now: nat| final(self)@ == #[trigger] old(self)@.incremented_n(n as nat, now),
    {
        let now = embassy_now();
        self.increment_n_at(n, now);
        assert(self@ == old(self)@.incremented_n(n as nat, now.ticks as nat));
    }

    /// [Self::increment_n] at the time `now`.
    pub fn increment_n_at(&mut self, n: u32, now: EmbassyInstant)
        requires
            old(self)@.fault_count + n <= u32::MAX,
        ensures
            final(self)@ == old(self)@.incremented_n(n as nat, now.ticks as nat),
    {
        let ghost start = self@;
        let mut counted: u32 = 0;
        while counted < n
            invariant
                counted <= n,
                start.fault_count + n <= u32::MAX,
                self@ == start.incremented_n(counted as nat, now.ticks as nat),
            decreases n - counted,
        {
            self.increment_at(now);
            counted = counted + 1;
        }
    }

    fn has_decrement_timedout(&self, now: EmbassyInstant) -> (timedout: bool)
        ensures
            self@.fault_count > 0 ==> timedout == self@.decrement_due(now.ticks as nat),
    {
        match self.last_decrement {
            Some(last_decrement) => {
                if now.ticks < last_decrement.ticks {
                    self.decrement_after.ticks == 0
                } else {
                    embassy_duration_since(now, last_decrement).ticks >= self.decrement_after.ticks
                }
            },
            None => false,
        }
    }

    /// Decrease the fault count by `1` if the decrement timeout elapsed.
    ///
    /// Returns `true` if a decrement was performed, `false` otherwise. A decrement is only
    /// performed when the counter is non-zero and at least `decrement_after` has elapsed since
    /// the last decrement.
    pub fn try_decrement(&mut self) -> (decremented: bool)
        ensures
            exists|now: nat|
                {
                    &&& final(self)@ == #[trigger] old(self)@.decremented(now)
                    &&& decremented == old(self)@.decrement_due(now)
                },
    {
        let now = embassy_now();
        let decremented = self.try_decrement_at(now);
        assert(self@ == old(self)@.decremented(now.ticks as nat));
        decremented
    }

    /// [Self::try_decrement] at the time `now`.
    pub fn try_decrement_at(&mut self, now: EmbassyInstant) -> (decremented: bool)
        ensures
            final(self)@ == old(self)@.decremented(now.ticks as nat),
            decremented == old(self)@.decrement_due(now.ticks as nat),
    {
        if self.fault_count == 0 || !self.has_decrement_timedout(now) {
            return false;
        }
        self.last_decrement = Some(now);
        self.fault_count = self.fault_count - 1;
        true
    }

    /// Check whether the counter exceeded the failure threshold.
    ///
    /// Returns `true` when `fault_count > failure_threshold`. In that case, the counter is reset
    /// to `0`.
    pub fn above_threshold(&mut self) -> (above: bool)
        ensures
            final(self)@ == old(self)@.checked(),
            above == old(self)@.exceeded(),
    {
        if self.fault_count > self.failure_threshold {
            self.fault_count = 0;
            return true;
        }
        false
    }

    /// Convenience helper to increment once and immediately check the threshold.
    pub fn increment_and_check(&mut self) -> (above: bool)
        requires
            old(self)@.fault_count < u32::MAX,
        ensures
            exists|now: nat|
                {
                    &&& final(self)@ == (#[trigger] old(self)@.incremented(now)).checked()
                    &&& above == old(self)@.incremented(now).exceeded()
                },
            above == (old(self)@.fault_count + 1 > old(self)@.failure_threshold),
    {
        let now = embassy_now();
        let above = self.increment_and_check_at(now);
        assert(self@ == old(self)@.incremented(now.ticks as nat).checked());
        above
    }

    /// [Self::increment_and_check] at the time `now`.
    pub fn increment_and_check_at(&mut self, now: EmbassyInstant) -> (above: bool)
        requires
            old(self)@.fault_count < u32::MAX,
        ensures
            final(self)@ == old(self)@.incremented(now.ticks as nat).checked(),
            above == old(self)@.incremented(now.ticks as nat).exceeded(),
    {
        self.increment_at(now);
        self.above_threshold()
    }

    /// Clear the counter and decrement timing state.
    pub fn clear(&mut self)
        ensures
            final(self)@ == old(self)@.cleared(),
    {
        self.fault_count = 0;
        self.last_decrement = None;
    }

    /// Update the failure threshold used by [Self::above_threshold].
    pub fn set_failure_threshold(&mut self, threshold: u32)
        ensures
            final(self)@ == (CounterModel { failure_threshold: threshold as nat, ..old(self)@ }),
    {
        self.failure_threshold = threshold;
    }

    /// Update the minimum interval between automatic decrements.
    pub fn set_decrement_after(&mut self, duration: EmbassyDuration)
        ensures
            final(self)@ == (CounterModel { decrement_after: duration.ticks as nat, ..old(self)@ }),
    {
        self.decrement_after = duration;
    }
}

/// Mathematical model of [RecoveryFdir]: the health table and the recovery counter.
pub struct RecoveryModel {
    /// Supervised component.
    pub id: RawComponentId,
    /// Health of all components.
    pub entries: Map<RawComponentId, HealthState>,
    /// Counts the recoveries.
    pub counter: CounterModel,
    /// Clock which tells the time of recoveries.
    pub clock: Clock,
}

impl RecoveryModel {
    /// Health of the supervised component.
    pub open spec fn health(self) -> Option<HealthState> {
        health_entry(self.entries, self.id)
    }

    /// The supervised component gets a new health.
    pub open spec fn with_health(self, health: HealthState) -> RecoveryModel {
        RecoveryModel { entries: self.entries.insert(self.id, health), ..self }
    }

    /// The component should be power cycled.
    pub open spec fn needs_recovery(self) -> bool {
        self.health() == Some(HealthState::NeedsRecovery)
    }

    /// Faults of the component are not escalated: it was given up on or is already recovering,
    /// or ground controls it.
    pub open spec fn ignores_faults(self) -> bool {
        self.health() matches Some(health) && health != HealthState::Healthy
    }

    /// One more recovery attempt exceeds the threshold.
    pub open spec fn attempts_used_up(self) -> bool {
        self.counter.fault_count + 1 > self.counter.failure_threshold
    }

    /// Response to a fault which costs a recovery attempt.
    pub open spec fn escalation_response(self) -> FaultResponse {
        if self.attempts_used_up() {
            FaultResponse::SetFaulty
        } else {
            FaultResponse::Recover
        }
    }

    /// A recovery attempt is counted. The component is marked faulty if there were too many.
    pub open spec fn escalated(self, now: nat) -> RecoveryModel {
        RecoveryModel { counter: self.counter.incremented(now).checked(), ..self }.with_health(
            if self.attempts_used_up() {
                HealthState::Faulty
            } else {
                HealthState::NeedsRecovery
            },
        )
    }

    /// A fault counter of the component exceeded its threshold.
    pub open spec fn after_fault(self, now: nat) -> RecoveryModel {
        if self.ignores_faults() {
            self
        } else {
            self.escalated(now)
        }
    }

    /// Response to a fault counter exceeding its threshold.
    pub open spec fn fault_response(self) -> FaultResponse {
        if self.ignores_faults() {
            FaultResponse::Ignored
        } else {
            self.escalation_response()
        }
    }

    /// The power cycle completed, or was not required.
    pub open spec fn after_recovery_done(self) -> RecoveryModel {
        if self.needs_recovery() {
            self.with_health(HealthState::Healthy)
        } else {
            self
        }
    }

    /// The power cycle failed.
    pub open spec fn after_recovery_failed(self, now: nat) -> RecoveryModel {
        if self.needs_recovery() {
            self.escalated(now)
        } else {
            self
        }
    }

    /// Response to a failed power cycle.
    pub open spec fn recovery_failed_response(self) -> FaultResponse {
        if self.needs_recovery() {
            self.escalation_response()
        } else {
            FaultResponse::Ignored
        }
    }

    /// Time passes, which might decrement the recovery counter.
    pub open spec fn after_time(self, now: nat) -> RecoveryModel {
        RecoveryModel { counter: self.counter.decremented(now), ..self }
    }
}

/// Escalates faults of a component to a power cycle recovery first, and to a faulty component
/// if it has to be recovered too often.
///
/// The component itself runs the power cycle while [Self::needs_recovery] returns `true` and
/// reports the outcome with [Self::recovery_done] or [Self::recovery_failed]. Setting
/// [HealthState::NeedsRecovery] from outside, for example by ground, triggers a recovery as well.
#[derive(Debug, Clone)]
pub struct RecoveryFdir<HealthTable: HealthTableProvider> {
    id: RawComponentId,
    health_table: HealthTable,
    recovery_counter: FaultCounterStd,
}

impl<HealthTable: HealthTableProvider> View for RecoveryFdir<HealthTable> {
    type V = RecoveryModel;

    closed spec fn view(&self) -> RecoveryModel {
        RecoveryModel {
            id: self.id,
            entries: self.health_table.entries(),
            counter: self.recovery_counter@,
            clock: self.recovery_counter.spec_clock(),
        }
    }
}

impl<HealthTable: HealthTableProvider> RecoveryFdir<HealthTable> {
    /// Create a new [RecoveryFdir] for component `id`, with a clock of its own.
    ///
    /// The component is marked faulty when it would be recovered more than `recovery_threshold`
    /// times, with the recovery count being decremented every `recovery_decrement_after`.
    pub fn new(
        id: RawComponentId,
        health_table: HealthTable,
        recovery_threshold: u32,
        recovery_decrement_after: Duration,
    ) -> (fdir: Self)
        ensures
            fdir@ == (RecoveryModel {
                id,
                entries: health_table.entries(),
                counter: CounterModel::fresh(
                    recovery_threshold as nat,
                    recovery_decrement_after.nanos as nat,
                ),
                clock: fdir@.clock,
            }),
    {
        Self::with_clock(
            id,
            health_table,
            recovery_threshold,
            recovery_decrement_after,
            Clock::new(),
        )
    }

    /// Create a new [RecoveryFdir] for component `id` which reads the given clock.
    pub fn with_clock(
        id: RawComponentId,
        health_table: HealthTable,
        recovery_threshold: u32,
        recovery_decrement_after: Duration,
        clock: Clock,
    ) -> (fdir: Self)
        ensures
            fdir@ == (RecoveryModel {
                id,
                entries: health_table.entries(),
                counter: CounterModel::fresh(
                    recovery_threshold as nat,
                    recovery_decrement_after.nanos as nat,
                ),
                clock,
            }),
    {
        RecoveryFdir {
            id,
            health_table,
            recovery_counter: FaultCounterStd::with_clock(
                recovery_threshold,
                recovery_decrement_after,
                clock,
            ),
        }
    }

    /// Health of the component. Absent entries are returned as `None`.
    pub fn health(&self) -> (health: Option<HealthState>)
        ensures
            health == self@.health(),
    {
        self.health_table.health(self.id)
    }

    /// Set the health of the component.
    pub fn set_health(&mut self, health: HealthState)
        ensures
            final(self)@ == old(self)@.with_health(health),
    {
        self.health_table.set_health(self.id, health);
    }

    /// Number of recoveries which still count.
    pub fn recovery_count(&self) -> (count: u32)
        ensures
            count == self@.counter.fault_count,
    {
        self.recovery_counter.fault_count()
    }

    /// Should be called periodically to decrement the recovery counter.
    pub fn periodic_operation(&mut self)
        ensures
            exists|now: nat| final(self)@ == #[trigger] old(self)@.after_time(now),
    {
        let now = self.recovery_counter.clock().now();
        self.periodic_operation_at(now);
        assert(self@ == old(self)@.after_time(now.nanos as nat));
    }

    /// [Self::periodic_operation] at the time `now`.
    pub fn periodic_operation_at(&mut self, now: Instant)
        ensures
            final(self)@ == old(self)@.after_time(now.nanos as nat),
    {
        self.recovery_counter.try_decrement_at(now);
    }

    /// Should be called when a fault counter of the component exceeded its threshold.
    pub fn handle_fault(&mut self) -> (response: FaultResponse)
        requires
            old(self)@.ignores_faults() || old(self)@.counter.fault_count < u32::MAX,
        ensures
            exists|now: nat| final(self)@ == #[trigger] old(self)@.after_fault(now),
            response == old(self)@.fault_response(),
    {
        let now = self.recovery_counter.clock().now();
        let response = self.handle_fault_at(now);
        assert(self@ == old(self)@.after_fault(now.nanos as nat));
        response
    }

    /// [Self::handle_fault] at the time `now`.
    pub fn handle_fault_at(&mut self, now: Instant) -> (response: FaultResponse)
        requires
            old(self)@.ignores_faults() || old(self)@.counter.fault_count < u32::MAX,
        ensures
            final(self)@ == old(self)@.after_fault(now.nanos as nat),
            response == old(self)@.fault_response(),
    {
        // Ground may have taken manual control, or already given up on this component.
        // Autonomous FDIR should not override that decision. An already faulty or recovering
        // component must not be escalated again. For example, this would allow a faulty component
        // to become healthy again, because the recovery counter was reset when it became faulty.
        match self.health() {
            Some(HealthState::ExternalControl)
            | Some(HealthState::PermanentFaulty)
            | Some(HealthState::Faulty)
            | Some(HealthState::NeedsRecovery) => FaultResponse::Ignored,
            Some(HealthState::Healthy) | None => self.escalate(now),
        }
    }

    /// Every recovery attempt counts. If there were too many attempts, the component is marked
    /// faulty. Otherwise, the component should be recovered (again).
    fn escalate(&mut self, now: Instant) -> (response: FaultResponse)
        requires
            old(self)@.counter.fault_count < u32::MAX,
        ensures
            final(self)@ == old(self)@.escalated(now.nanos as nat),
            response == old(self)@.escalation_response(),
    {
        if self.recovery_counter.increment_and_check_at(now) {
            self.set_health(HealthState::Faulty);
            return FaultResponse::SetFaulty;
        }
        self.set_health(HealthState::NeedsRecovery);
        FaultResponse::Recover
    }

    /// The component should be power cycled.
    pub fn needs_recovery(&self) -> (needs_recovery: bool)
        ensures
            needs_recovery == self@.needs_recovery(),
    {
        match self.health() {
            Some(HealthState::NeedsRecovery) => true,
            _ => false,
        }
    }

    /// The power cycle completed, or was not required. Sets the health back to healthy.
    pub fn recovery_done(&mut self)
        ensures
            final(self)@ == old(self)@.after_recovery_done(),
    {
        // The health might have changed during the recovery.
        if self.needs_recovery() {
            self.set_health(HealthState::Healthy);
        }
    }

    /// The power cycle failed. This costs a recovery attempt like any other fault.
    pub fn recovery_failed(&mut self) -> (response: FaultResponse)
        requires
            old(self)@.needs_recovery() ==> old(self)@.counter.fault_count < u32::MAX,
        ensures
            exists|now: nat| final(self)@ == #[trigger] old(self)@.after_recovery_failed(now),
            response == old(self)@.recovery_failed_response(),
    {
        let now = self.recovery_counter.clock().now();
        let response = self.recovery_failed_at(now);
        assert(self@ == old(self)@.after_recovery_failed(now.nanos as nat));
        response
    }

    /// [Self::recovery_failed] at the time `now`.
    pub fn recovery_failed_at(&mut self, now: Instant) -> (response: FaultResponse)
        requires
            old(self)@.needs_recovery() ==> old(self)@.counter.fault_count < u32::MAX,
        ensures
            final(self)@ == old(self)@.after_recovery_failed(now.nanos as nat),
            response == old(self)@.recovery_failed_response(),
    {
        // The health might have changed during the recovery.
        if !self.needs_recovery() {
            return FaultResponse::Ignored;
        }
        self.escalate(now)
    }
}

} // verus!
