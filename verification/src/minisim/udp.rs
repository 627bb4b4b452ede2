//! UDP interface of the simulator.

use vstd::prelude::*;

verus! {

/// Port on which the simulator listens.
pub const SIM_CTRL_PORT: u16 = 7303;

} // verus!
