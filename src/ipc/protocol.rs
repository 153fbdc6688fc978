use vstd::prelude::*;

pub use crate::backend::power::PowerAction;
pub use crate::events::PopupType;

verus! {

/// A request from the control tool. Levels and amounts are whole percent.
#[derive(Debug, Clone, PartialEq, Eq)]
pub enum Command {
    ShowPopup { popup: PopupType },
    HidePopup { popup: PopupType },
    TogglePopup { popup: PopupType },
    Volume { action: VolumeAction },
    Brightness { action: BrightnessAction },
    Power { action: PowerAction },
    Status,
    Ping,
}

/// Volume requests.
#[derive(Debug, Clone, Copy, PartialEq, Eq, Structural)]
pub enum VolumeAction {
    Up { amount: Option<i64> },
    Down { amount: Option<i64> },
    SetLevel { level: i64 },
    Mute,
    Unmute,
    ToggleMute,
}

/// Brightness requests.
#[derive(Debug, Clone, Copy, PartialEq, Eq, Structural)]
pub enum BrightnessAction {
    Up { amount: Option<i64> },
    Down { amount: Option<i64> },
    SetLevel { level: i64 },
}

impl BrightnessAction {
    /// Whether the request moves the level relative to its current value.
    pub fn is_relative(&self) -> (r: bool)
        ensures
            r == !(*self is SetLevel),
    {
        match self {
            BrightnessAction::SetLevel { .. } => false,
            _ => true,
        }
    }
}

/// The reply to one command.
#[derive(Debug, Clone, PartialEq, Eq)]
pub enum Response {
    Success { message: Option<String> },
    Error { message: String },
    Status { version: String, uptime: u64 },
    Pong,
}

impl Response {
    pub fn success() -> (r: Self)
        ensures
            r == (Response::Success { message: None }),
    {
        Response::Success { message: None }
    }

    pub fn success_with_message(message: String) -> (r: Self)
        ensures
            r == (Response::Success { message: Some(message) }),
    {
        Response::Success { message: Some(message) }
    }

    pub fn error(message: String) -> (r: Self)
        ensures
            r == (Response::Error { message }),
    {
        Response::Error { message }
    }

    pub fn pong() -> (r: Self)
        ensures
            r == Response::Pong,
    {
        Response::Pong
    }
}

} // verus!
