//! Requests to the event manager.

use vstd::prelude::*;

use crate::types::ComponentId;

verus! {

/// Controls which events are converted to TM. Component and event filters are independent:
/// re-enabling a component does not re-enable its individually disabled events.
#[derive(Debug, Clone, Copy, PartialEq, Eq, Structural)]
pub enum Request {
    EnableComponent(ComponentId),
    DisableComponent(ComponentId),
    EnableEvent { sender_id: ComponentId, event_id: u16 },
    DisableEvent { sender_id: ComponentId, event_id: u16 },
}

} // verus!
