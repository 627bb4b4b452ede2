//! Periodic generation of housekeeping (HK) data.

use vstd::prelude::*;

use crate::time::{Duration, Instant};
use crate::types::HkRequestType;

verus! {

/// Mathematical model of the [HkHelperSingleSet]. Times are clock readings in nanoseconds.
pub struct HkModel {
    /// Periodic generation is enabled.
    pub enabled: bool,
    /// Interval of the periodic generation.
    pub frequency: nat,
    /// Last periodic generation.
    pub last: Option<nat>,
}

impl HkModel {
    /// HK data has to be generated.
    pub open spec fn due(self, now: nat) -> bool {
        self.enabled && match self.last {
            Some(last) => crate::time::elapsed(last, now) >= self.frequency,
            None => true,
        }
    }

    /// The generation is recorded if it is due.
    pub open spec fn checked(self, now: nat) -> HkModel {
        if self.due(now) {
            HkModel { last: Some(now), ..self }
        } else {
            self
        }
    }

    /// The settings are changed by a request.
    pub open spec fn configured(self, request: HkRequestType) -> HkModel {
        match request {
            HkRequestType::OneShot => self,
            HkRequestType::EnablePeriodic(None) => HkModel { enabled: true, ..self },
            HkRequestType::EnablePeriodic(Some(interval)) => HkModel {
                enabled: true,
                frequency: interval.nanos as nat,
                ..self
            },
            HkRequestType::DisablePeriodic => HkModel { enabled: false, ..self },
            HkRequestType::ModifyInterval(interval) => HkModel {
                frequency: interval.nanos as nat,
                ..self
            },
        }
    }
}

/// Tracks when the only HK set of a component has to be generated.
#[derive(Debug, Clone, Copy)]
pub struct HkHelperSingleSet {
    enabled: bool,
    frequency: Duration,
    last_generated: Option<Instant>,
}

impl View for HkHelperSingleSet {
    type V = HkModel;

    closed spec fn view(&self) -> HkModel {
        HkModel {
            enabled: self.enabled,
            frequency: self.frequency.nanos as nat,
            last: match self.last_generated {
                Some(last) => Some(last.nanos as nat),
                None => None,
            },
        }
    }
}

impl HkHelperSingleSet {
    /// Helper with the given settings.
    pub fn new(enabled: bool, frequency: Duration) -> (helper: Self)
        ensures
            helper@ == (HkModel { enabled, frequency: frequency.nanos as nat, last: None }),
    {
        HkHelperSingleSet { enabled, frequency, last_generated: None }
    }

    /// Changes the settings. A one shot request does not change any.
    pub fn configure(&mut self, request: HkRequestType)
        ensures
            final(self)@ == old(self)@.configured(request),
    {
        match request {
            HkRequestType::OneShot => {},
            HkRequestType::EnablePeriodic(opt_interval) => {
                self.enabled = true;
                if let Some(interval) = opt_interval {
                    self.frequency = interval;
                }
            },
            HkRequestType::DisablePeriodic => {
                self.enabled = false;
            },
            HkRequestType::ModifyInterval(interval) => {
                self.frequency = interval;
            },
        }
    }

    /// Checks whether HK data has to be generated at the time `now`, and records it if so.
    pub fn needs_generation_at(&mut self, now: Instant) -> (due: bool)
        ensures
            due == old(self)@.due(now.nanos as nat),
            final(self)@ == old(self)@.checked(now.nanos as nat),
    {
        if !self.enabled {
            return false;
        }
        if let Some(last) = self.last_generated {
            if now.duration_since(last).nanos < self.frequency.nanos {
                return false;
            }
        }
        self.last_generated = Some(now);
        true
    }
}

/// Enabled HK data is generated right away and then once per interval: not again before the
/// interval elapsed, and again as soon as it did.
pub proof fn law_hk_interval(hk: HkModel, now: nat, later: nat)
    requires
        hk.enabled,
        hk.due(now),
        now <= later,
    ensures
        hk.checked(now).due(later) <==> later - now >= hk.frequency,
        hk.last is None ==> hk.due(later),
{
}

/// Disabled HK data is never generated, and nothing is recorded if none is generated.
pub proof fn law_hk_needs_to_be_enabled(hk: HkModel, now: nat)
    ensures
        !hk.enabled ==> !hk.due(now),
        !hk.due(now) ==> hk.checked(now) == hk,
        hk.due(now) ==> hk.checked(now).last == Some(now),
        hk.checked(now).enabled == hk.enabled,
        hk.checked(now).frequency == hk.frequency,
{
}

/// HK data which was generated before is due exactly if a whole interval passed since then.
pub proof fn law_hk_is_due_after_interval(hk: HkModel, last: nat, now: nat)
    requires
        hk.enabled,
        hk.last == Some(last),
        last <= now,
    ensures
        hk.due(now) <==> last + hk.frequency <= now,
{
}

/// Enabling and disabling only change whether HK data is generated, and intervals only how often.
/// An interval can be given when enabling, and stays the same otherwise. No request makes the last
/// generation forgotten.
pub proof fn law_hk_requests(hk: HkModel, interval: Duration)
    ensures
        hk.configured(HkRequestType::OneShot) == hk,
        hk.configured(HkRequestType::EnablePeriodic(None)).enabled,
        hk.configured(HkRequestType::EnablePeriodic(None)).frequency == hk.frequency,
        hk.configured(HkRequestType::EnablePeriodic(None)).last == hk.last,
        hk.configured(HkRequestType::EnablePeriodic(Some(interval))).enabled,
        hk.configured(HkRequestType::EnablePeriodic(Some(interval))).frequency == interval.nanos,
        hk.configured(HkRequestType::EnablePeriodic(Some(interval))).last == hk.last,
        !hk.configured(HkRequestType::DisablePeriodic).enabled,
        hk.configured(HkRequestType::DisablePeriodic).frequency == hk.frequency,
        hk.configured(HkRequestType::DisablePeriodic).last == hk.last,
        hk.configured(HkRequestType::ModifyInterval(interval)).enabled == hk.enabled,
        hk.configured(HkRequestType::ModifyInterval(interval)).frequency == interval.nanos,
        hk.configured(HkRequestType::ModifyInterval(interval)).last == hk.last,
{
}

} // verus!
