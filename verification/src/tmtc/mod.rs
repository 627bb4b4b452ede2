//! Telecommand reception.

pub mod tc_source;
