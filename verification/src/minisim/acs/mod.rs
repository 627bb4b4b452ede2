//! Messages of the simulated attitude control devices.

pub mod mgm;
pub mod mgt;
pub mod mgt_laws;
