//! Verified on-board software components: fault detection and recovery, mode and power switch
//! commanding, device handlers, event management, telecommand routing and device simulation.
//!
//! Channels, sockets and the simulation engine are not part of this library. Every component
//! owns plain queues instead: the application fills the input queues before a cycle and drains
//! the output queues after it.

pub mod acs;
pub mod bytes;
pub mod device_fdir;
pub mod device_fdir_laws;
pub mod device_mode;
pub mod device_mode_laws;
pub mod eps;
pub mod event_manager;
pub mod fdir;
pub mod fdir_laws;
pub mod handling;
pub mod health;
pub mod hk;
pub mod interface;
pub mod minisim;
pub mod time;
pub mod tmtc;
pub mod types;
