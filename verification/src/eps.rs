//! Power switches as seen by the device handlers.

use vstd::prelude::*;

use crate::types::pcdu::{SwitchId, SwitchRequest, SwitchState, SwitchStateBinary};

verus! {

/// Last known states of all switches.
#[derive(Debug, Clone, Copy, PartialEq, Eq, Structural)]
pub struct SwitchSet {
    pub mgm0: SwitchState,
    pub mgm1: SwitchState,
    pub mgt: SwitchState,
}

impl SwitchSet {
    /// Set in which all switches have the given state.
    pub fn new(state: SwitchState) -> (switch_set: Self)
        ensures
            forall|id: SwitchId| #[trigger] switch_set.spec_switch_state(id) == state,
    {
        SwitchSet { mgm0: state, mgm1: state, mgt: state }
    }

    /// State of one switch.
    pub open spec fn spec_switch_state(self, id: SwitchId) -> SwitchState {
        match id {
            SwitchId::Mgm0 => self.mgm0,
            SwitchId::Mgm1 => self.mgm1,
            SwitchId::Mgt => self.mgt,
        }
    }

    /// State of one switch.
    pub fn switch_state(&self, id: SwitchId) -> (state: SwitchState)
        ensures
            state == self.spec_switch_state(id),
    {
        match id {
            SwitchId::Mgm0 => self.mgm0,
            SwitchId::Mgm1 => self.mgm1,
            SwitchId::Mgt => self.mgt,
        }
    }

    /// The set with a new state of switch `id`.
    pub open spec fn with_switch_state(self, id: SwitchId, state: SwitchState) -> SwitchSet {
        match id {
            SwitchId::Mgm0 => SwitchSet { mgm0: state, ..self },
            SwitchId::Mgm1 => SwitchSet { mgm1: state, ..self },
            SwitchId::Mgt => SwitchSet { mgt: state, ..self },
        }
    }

    /// Updates the state of one switch.
    pub fn set_switch_state(&mut self, id: SwitchId, state: SwitchState)
        ensures
            *final(self) == old(self).with_switch_state(id, state),
    {
        match id {
            SwitchId::Mgm0 => self.mgm0 = state,
            SwitchId::Mgm1 => self.mgm1 = state,
            SwitchId::Mgt => self.mgt = state,
        }
    }
}

/// Setting the state of one switch is visible there, and nowhere else.
pub proof fn law_switch_states_are_independent(
    set: SwitchSet,
    id: SwitchId,
    state: SwitchState,
    other: SwitchId,
)
    ensures
        set.with_switch_state(id, state).spec_switch_state(other) == (if other == id {
            state
        } else {
            set.spec_switch_state(other)
        }),
{
}

/// Mathematical model of the [PowerSwitchHelper].
pub struct PowerModel {
    /// Switch requests which were not collected yet.
    pub requests: Seq<SwitchRequest>,
    /// Last known switch states.
    pub switch_set: SwitchSet,
}

impl PowerModel {
    /// The switch is known to be on.
    pub open spec fn is_switch_on(self, id: SwitchId) -> bool {
        self.switch_set.spec_switch_state(id) == SwitchState::On
    }

    /// A switch is commanded on or off.
    pub open spec fn commanded(self, switch_id: SwitchId, on: bool) -> PowerModel {
        let target_state = if on {
            SwitchStateBinary::On
        } else {
            SwitchStateBinary::Off
        };
        PowerModel {
            requests: self.requests.push(SwitchRequest { switch_id, target_state }),
            ..self
        }
    }
}

/// Access of a device handler to its power switch.
///
/// Commands are queued until they are collected for the power control and distribution unit,
/// which in turn provides the switch states.
#[derive(Debug, Clone)]
pub struct PowerSwitchHelper {
    requests: Vec<SwitchRequest>,
    switch_set: SwitchSet,
}

impl View for PowerSwitchHelper {
    type V = PowerModel;

    closed spec fn view(&self) -> PowerModel {
        PowerModel { requests: self.requests@, switch_set: self.switch_set }
    }
}

impl PowerSwitchHelper {
    /// Helper without pending requests.
    pub fn new(switch_set: SwitchSet) -> (helper: Self)
        ensures
            helper@ == (PowerModel { requests: Seq::empty(), switch_set }),
    {
        PowerSwitchHelper { requests: Vec::new(), switch_set }
    }

    /// Queues a request to switch `id` on.
    pub fn send_switch_on_cmd(&mut self, id: SwitchId)
        ensures
            final(self)@ == old(self)@.commanded(id, true),
    {
        self.requests.push(SwitchRequest { switch_id: id, target_state: SwitchStateBinary::On });
    }

    /// Queues a request to switch `id` off.
    pub fn send_switch_off_cmd(&mut self, id: SwitchId)
        ensures
            final(self)@ == old(self)@.commanded(id, false),
    {
        self.requests.push(SwitchRequest { switch_id: id, target_state: SwitchStateBinary::Off });
    }

    /// The switch is known to be on.
    pub fn is_switch_on(&self, id: SwitchId) -> (on: bool)
        ensures
            on == self@.is_switch_on(id),
    {
        self.switch_set.switch_state(id) == SwitchState::On
    }

    /// Last known switch states.
    pub fn switch_set(&self) -> (switch_set: SwitchSet)
        ensures
            switch_set == self@.switch_set,
    {
        self.switch_set
    }

    /// Updates the switch states.
    pub fn set_switch_set(&mut self, switch_set: SwitchSet)
        ensures
            final(self)@ == (PowerModel { switch_set, ..old(self)@ }),
    {
        self.switch_set = switch_set;
    }

    /// Collects all pending requests, in the order in which they were made.
    pub fn take_requests(&mut self) -> (requests: Vec<SwitchRequest>)
        ensures
            requests@ == old(self)@.requests,
            final(self)@ == (PowerModel { requests: Seq::empty(), ..old(self)@ }),
    {
        let mut requests: Vec<SwitchRequest> = Vec::new();
        std::mem::swap(&mut requests, &mut self.requests);
        requests
    }
}

/// A switch only counts as on if its last known state is on.
pub proof fn law_only_on_counts_as_on(power: PowerModel)
    ensures
        power.is_switch_on(SwitchId::Mgm0) == (power.switch_set.mgm0 == SwitchState::On),
        power.is_switch_on(SwitchId::Mgm1) == (power.switch_set.mgm1 == SwitchState::On),
        power.is_switch_on(SwitchId::Mgt) == (power.switch_set.mgt == SwitchState::On),
{
}

/// A command is exactly one request, for the named switch and the commanded state, behind all
/// earlier ones. It does not change what is known about the switches.
pub proof fn law_command_is_one_request(power: PowerModel, switch_id: SwitchId)
    ensures
        power.commanded(switch_id, true).requests == power.requests.push(
            SwitchRequest { switch_id, target_state: SwitchStateBinary::On },
        ),
        power.commanded(switch_id, false).requests == power.requests.push(
            SwitchRequest { switch_id, target_state: SwitchStateBinary::Off },
        ),
        power.commanded(switch_id, true).switch_set == power.switch_set,
        power.commanded(switch_id, false).switch_set == power.switch_set,
{
}

/// An update changes the state of the named switch, and of no other one.
pub proof fn law_named_switch_is_updated(switches: SwitchSet, state: SwitchState)
    ensures
        switches.with_switch_state(SwitchId::Mgm0, state) == (SwitchSet {
            mgm0: state,
            mgm1: switches.mgm1,
            mgt: switches.mgt,
        }),
        switches.with_switch_state(SwitchId::Mgm1, state) == (SwitchSet {
            mgm0: switches.mgm0,
            mgm1: state,
            mgt: switches.mgt,
        }),
        switches.with_switch_state(SwitchId::Mgt, state) == (SwitchSet {
            mgm0: switches.mgm0,
            mgm1: switches.mgm1,
            mgt: state,
        }),
        switches.spec_switch_state(SwitchId::Mgm0) == switches.mgm0,
        switches.spec_switch_state(SwitchId::Mgm1) == switches.mgm1,
        switches.spec_switch_state(SwitchId::Mgt) == switches.mgt,
{
}

} // verus!
