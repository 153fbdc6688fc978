//! Backend control adapters: each keeps a cached snapshot of one subsystem,
//! a connection state, and a handle on the event bus.

pub mod audio;
pub mod backlight;
pub mod battery;
pub mod bluetooth;
pub mod devices;
pub mod level;
pub mod link;
pub mod media;
pub mod network;
pub mod niri;
pub mod power;
pub mod strings;
