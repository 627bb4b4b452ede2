//! Behaviour of the simulated devices.

pub mod mgm;
pub mod mgt;
