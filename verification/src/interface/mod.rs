//! Interfaces to other programs.

pub mod sim_client_udp;
