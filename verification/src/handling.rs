//! Outcome of polling operations.

use vstd::prelude::*;

verus! {

/// Tells whether there was something to handle.
#[derive(Debug, Clone, Copy, PartialEq, Eq, Structural)]
pub enum HandlingStatus {
    Empty,
    HandledOne,
}

} // verus!
