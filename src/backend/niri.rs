//! Client side of the compositor's request/response socket protocol.

pub mod client;
pub mod events;
pub mod protocol;
