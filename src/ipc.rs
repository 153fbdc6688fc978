//! The local command protocol and its dispatcher.

pub mod niri;
pub mod protocol;
pub mod server;
