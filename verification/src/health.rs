//! Component health and the table which tracks it.

use std::collections::HashMap;
use vstd::prelude::*;

verus! {

broadcast use vstd::std_specs::hash::group_hash_axioms;

/// Numeric component identifier.
pub type RawComponentId = u32;

/// Health of a component.
#[derive(Debug, Clone, Copy, PartialEq, Eq, Structural, Hash)]
pub enum HealthState {
    /// The component works as expected.
    Healthy,
    /// The component does not work, but might be recovered.
    Faulty,
    /// The component does not work and is not expected to work again.
    PermanentFaulty,
    /// Ground controls the component manually.
    ExternalControl,
    /// The component has to be power cycled.
    NeedsRecovery,
}

/// Entry of `id` in a health table with the given entries.
pub open spec fn health_entry(
    entries: Map<RawComponentId, HealthState>,
    id: RawComponentId,
) -> Option<HealthState> {
    if entries.dom().contains(id) {
        Some(entries[id])
    } else {
        None
    }
}

/// Table which maps components to their health.
pub trait HealthTableProvider {
    /// The health of all components which have an entry.
    spec fn entries(&self) -> Map<RawComponentId, HealthState>;

    /// Health of component `id`, if the table has an entry for it.
    fn health(&self, id: RawComponentId) -> (health: Option<HealthState>)
        ensures
            health == health_entry(self.entries(), id),
    ;

    /// Sets the health of component `id`.
    fn set_health(&mut self, id: RawComponentId, health: HealthState)
        ensures
            final(self).entries() == old(self).entries().insert(id, health),
    ;
}

/// Health table backed by a hash map.
#[derive(Debug, Clone)]
pub struct HealthTableMap {
    map: HashMap<RawComponentId, HealthState>,
}

impl HealthTableMap {
    /// Table without any entries.
    pub fn new() -> (table: HealthTableMap)
        ensures
            table.entries() == Map::<RawComponentId, HealthState>::empty(),
    {
        HealthTableMap { map: HashMap::new() }
    }
}

impl HealthTableProvider for HealthTableMap {
    closed spec fn entries(&self) -> Map<RawComponentId, HealthState> {
        self.map@
    }

    fn health(&self, id: RawComponentId) -> (health: Option<HealthState>) {
        match self.map.get(&id) {
            Some(health) => Some(*health),
            None => None,
        }
    }

    fn set_health(&mut self, id: RawComponentId, health: HealthState) {
        self.map.insert(id, health);
    }
}

/// The entry which was set for a component is found again, and other entries stay the same.
pub proof fn law_entries_are_independent(
    entries: Map<RawComponentId, HealthState>,
    id: RawComponentId,
    other: RawComponentId,
    health: HealthState,
)
    ensures
        health_entry(entries.insert(id, health), id) == Some(health),
        other != id ==> health_entry(entries.insert(id, health), other) == health_entry(
            entries,
            other,
        ),
        health_entry(entries, id) is None <==> !entries.dom().contains(id),
{
}

} // verus!
