//! Types of the event manager.

pub mod request;
pub mod response;
