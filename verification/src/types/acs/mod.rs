//! Types of the attitude control subsystem.

pub mod mgm;
pub mod mgt;
