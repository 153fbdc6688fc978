//! Backend coordination and control plane of a desktop shell: an event bus,
//! backend control adapters with cached state, a registry of adapters and a
//! command dispatcher.

pub mod error;
pub mod events;
pub mod backend;
pub mod app;
pub mod ipc;
pub mod config;
pub mod ctl;
pub mod paths;
pub mod sampler;
pub mod laws;
