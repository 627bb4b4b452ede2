use satrs_obsw::fdir::{
    EmbassyDuration, EmbassyInstant, FaultCounterEmbassy, FaultCounterStd, FaultResponse,
    RecoveryFdir,
};
use satrs_obsw::health::{HealthState, HealthTableMap, HealthTableProvider};
use satrs_obsw::time::{Clock, Duration, Instant};

fn at_millis(millis: u128) -> Instant {
    Instant { nanos: millis * 1_000_000 }
}

#[test]
fn threshold_not_exceeded_below_limit() {
    let mut fc = FaultCounterStd::new(2, Duration::from_secs(60));
    assert!(!fc.increment_and_check());
    assert!(!fc.increment_and_check());
    assert_eq!(fc.fault_count(), 2);
}

#[test]
fn threshold_exceeded_resets_counter() {
    let mut fc = FaultCounterStd::new(2, Duration::from_secs(60));
    fc.increment_n(3);
    assert!(fc.above_threshold());
    assert_eq!(fc.fault_count(), 0);
    assert!(!fc.above_threshold());
}

#[test]
fn decrement_only_after_timeout() {
    let mut fc = FaultCounterStd::new(5, Duration::from_millis(20));
    fc.increment_at(at_millis(0));
    assert!(!fc.try_decrement_at(at_millis(0)));
    assert!(!fc.try_decrement_at(Instant { nanos: 19_999_999 }));
    assert!(fc.try_decrement_at(at_millis(20)));
    assert_eq!(fc.fault_count(), 0);
}

#[test]
fn decrement_noop_when_empty() {
    let mut fc = FaultCounterStd::new(5, Duration::from_millis(1));
    assert!(!fc.try_decrement_at(at_millis(2)));
}

#[test]
fn increment_after_empty_resets_decrement_timing() {
    let mut fc = FaultCounterStd::new(5, Duration::from_millis(20));
    fc.increment_at(at_millis(0));
    assert!(fc.try_decrement_at(at_millis(30)));
    // Counter is 0 again, incrementing should require a fresh decrement_after wait.
    fc.increment_at(at_millis(30));
    assert!(!fc.try_decrement_at(at_millis(30)));
    assert!(fc.try_decrement_at(at_millis(50)));
}

#[test]
fn decrements_are_spaced() {
    let mut fc = FaultCounterStd::new(5, Duration::from_millis(20));
    fc.increment_n_at(3, at_millis(0));
    assert!(fc.try_decrement_at(at_millis(100)));
    assert!(!fc.try_decrement_at(at_millis(119)));
    assert!(fc.try_decrement_at(at_millis(120)));
    assert_eq!(fc.fault_count(), 1);
}

#[test]
fn new_settings_are_used() {
    let mut fc = FaultCounterStd::new(5, Duration::from_secs(60));
    fc.set_failure_threshold(0);
    assert!(fc.increment_and_check());
    fc.set_failure_threshold(3);
    fc.set_decrement_after(Duration::from_millis(1));
    fc.increment_n_at(2, at_millis(0));
    assert!(fc.try_decrement_at(at_millis(1)));
    assert_eq!(fc.fault_count(), 1);
}

#[test]
fn clear_resets_state() {
    let mut fc = FaultCounterStd::new(1, Duration::from_secs(60));
    fc.increment_n(2);
    fc.clear();
    assert_eq!(fc.fault_count(), 0);
    assert!(!fc.above_threshold());
}

#[test]
fn the_clock_runs() {
    let mut fc = FaultCounterStd::new(5, Duration::zero());
    fc.increment();
    assert!(fc.try_decrement());
    let clock = Clock::new();
    let start = clock.now();
    let mut now = clock.now();
    while now.nanos == start.nanos {
        now = clock.now();
    }
    assert!(now.nanos > start.nanos);
    assert_eq!(now.duration_since(start).nanos, now.nanos - start.nanos);
    assert_eq!(start.duration_since(now), Duration::zero());
}

#[test]
fn embassy_counter_counts_and_forgets() {
    let mut fc = FaultCounterEmbassy::new(2, EmbassyDuration { ticks: 0 });
    fc.increment_n(2);
    assert_eq!(fc.fault_count(), 2);
    assert!(!fc.above_threshold());
    assert!(fc.try_decrement());
    assert_eq!(fc.fault_count(), 1);
    fc.set_decrement_after(EmbassyDuration {
        ticks: embassy_time::Duration::from_secs(3600).as_ticks(),
    });
    assert!(!fc.try_decrement());
    assert!(!fc.increment_and_check());
    assert!(fc.increment_and_check());
    assert_eq!(fc.fault_count(), 0);
    fc.set_failure_threshold(0);
    fc.increment();
    assert!(fc.above_threshold());
    fc.increment();
    fc.clear();
    assert_eq!(fc.fault_count(), 0);
}

#[test]
fn embassy_counter_is_exact() {
    let at = |ticks: u64| EmbassyInstant { ticks };
    let mut fc = FaultCounterEmbassy::new(5, EmbassyDuration { ticks: 20 });
    fc.increment_at(at(100));
    fc.increment_n_at(2, at(110));
    assert!(!fc.try_decrement_at(at(119)));
    assert!(fc.try_decrement_at(at(120)));
    assert!(!fc.try_decrement_at(at(139)));
    assert!(fc.try_decrement_at(at(140)));
    assert_eq!(fc.fault_count(), 1);
    // A reading before the last decrement counts as no time passed.
    assert!(!fc.try_decrement_at(at(0)));
}

fn recovery_fdir() -> RecoveryFdir<HealthTableMap> {
    recovery_fdir_with_threshold(1)
}

fn recovery_fdir_with_threshold(recovery_threshold: u32) -> RecoveryFdir<HealthTableMap> {
    RecoveryFdir::new(1, HealthTableMap::new(), recovery_threshold, Duration::from_secs(60))
}

#[test]
fn first_fault_triggers_recovery() {
    let mut fdir = recovery_fdir();
    assert_eq!(fdir.handle_fault(), FaultResponse::Recover);
    assert!(fdir.needs_recovery());
    fdir.recovery_done();
    assert_eq!(fdir.health(), Some(HealthState::Healthy));
}

#[test]
fn repeated_recovery_sets_faulty() {
    let mut fdir = recovery_fdir();
    assert_eq!(fdir.handle_fault(), FaultResponse::Recover);
    fdir.recovery_done();
    assert_eq!(fdir.handle_fault(), FaultResponse::SetFaulty);
    assert_eq!(fdir.health(), Some(HealthState::Faulty));
}

#[test]
fn faulty_component_stays_faulty() {
    let mut fdir = recovery_fdir();
    fdir.handle_fault();
    fdir.recovery_done();
    assert_eq!(fdir.handle_fault(), FaultResponse::SetFaulty);
    // The recovery counter was reset, but this must not trigger a new recovery.
    assert_eq!(fdir.handle_fault(), FaultResponse::Ignored);
    assert_eq!(fdir.health(), Some(HealthState::Faulty));
}

#[test]
fn failed_recovery_is_retried() {
    let mut fdir = recovery_fdir_with_threshold(2);
    fdir.handle_fault();
    assert_eq!(fdir.recovery_failed(), FaultResponse::Recover);
    assert!(fdir.needs_recovery());
    assert_eq!(fdir.recovery_failed(), FaultResponse::SetFaulty);
    assert_eq!(fdir.health(), Some(HealthState::Faulty));
}

#[test]
fn health_is_not_overridden() {
    let mut fdir = recovery_fdir();
    for health in [
        HealthState::ExternalControl,
        HealthState::PermanentFaulty,
        HealthState::Faulty,
        HealthState::NeedsRecovery,
    ] {
        fdir.set_health(health);
        assert_eq!(fdir.handle_fault(), FaultResponse::Ignored);
        assert_eq!(fdir.health(), Some(health));
    }
}

#[test]
fn health_changed_during_recovery_is_kept() {
    let mut fdir = recovery_fdir();
    fdir.handle_fault();
    fdir.set_health(HealthState::ExternalControl);
    fdir.recovery_done();
    assert_eq!(fdir.health(), Some(HealthState::ExternalControl));
    assert_eq!(fdir.recovery_failed(), FaultResponse::Ignored);
    assert_eq!(fdir.health(), Some(HealthState::ExternalControl));
}

#[test]
fn recoveries_are_forgotten() {
    let mut fdir = recovery_fdir();
    assert_eq!(fdir.handle_fault_at(at_millis(0)), FaultResponse::Recover);
    fdir.recovery_done();
    fdir.periodic_operation_at(at_millis(59_999));
    assert_eq!(fdir.recovery_count(), 1);
    fdir.periodic_operation_at(at_millis(60_000));
    assert_eq!(fdir.recovery_count(), 0);
    assert_eq!(fdir.handle_fault_at(at_millis(60_000)), FaultResponse::Recover);
}

#[test]
fn other_components_keep_their_health() {
    let mut table = HealthTableMap::new();
    table.set_health(2, HealthState::PermanentFaulty);
    assert_eq!(table.health(1), None);
    table.set_health(1, HealthState::Healthy);
    table.set_health(1, HealthState::Faulty);
    assert_eq!(table.health(1), Some(HealthState::Faulty));
    assert_eq!(table.health(2), Some(HealthState::PermanentFaulty));
}
