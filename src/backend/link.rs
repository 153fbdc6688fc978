use vstd::prelude::*;
use crate::error::AmiyaError;

verus! {

/// Connection state of an adapter towards its external service.
#[derive(Debug, Clone, Copy, PartialEq, Eq, Structural)]
pub enum LinkState {
    Unconnected,
    Connecting,
    Connected,
}

/// One connection attempt from state `s`: whether a connection must be
/// opened, and the state after.
pub open spec fn connect_step(s: LinkState) -> (bool, LinkState) {
    if s == LinkState::Connected {
        (false, LinkState::Connected)
    } else {
        (true, LinkState::Connecting)
    }
}

/// The message of a failed connection attempt.
pub open spec fn connect_error_text(reason: Seq<char>) -> Seq<char> {
    "Failed to connect to D-Bus: "@ + reason
}

/// `r` is what a connection attempt with outcome `outcome` reports: success,
/// or a backend error naming the reason.
pub open spec fn connect_result(outcome: Result<(), String>, r: Result<(), AmiyaError>) -> bool {
    match outcome {
        Ok(_) => r is Ok,
        Err(m) => r matches Err(AmiyaError::Backend(t)) && t@ == connect_error_text(m@),
    }
}

/// The error of a failed connection attempt.
pub fn connect_failure(reason: String) -> (r: AmiyaError)
    ensures
        r matches AmiyaError::Backend(t) && t@ == connect_error_text(reason@),
{
    AmiyaError::Backend("Failed to connect to D-Bus: ".to_owned().concat(reason.as_str()))
}

impl LinkState {
    /// Start a connection attempt. Returns whether a new connection must be
    /// opened: never while one is live, so that repeated attempts neither
    /// duplicate nor leak connections.
    pub fn begin_connect(&mut self) -> (open: bool)
        ensures
            (open, *final(self)) == connect_step(*old(self)),
    {
        if *self == LinkState::Connected {
            false
        } else {
            *self = LinkState::Connecting;
            true
        }
    }

    /// Record the outcome of an attempt that `begin_connect` asked for.
    pub fn finish_connect(&mut self, opened: bool)
        ensures
            *final(self) == (if opened { LinkState::Connected } else { LinkState::Unconnected }),
    {
        *self = if opened { LinkState::Connected } else { LinkState::Unconnected };
    }

    /// An input/output failure on a live connection drops it.
    pub fn connection_lost(&mut self)
        ensures
            *final(self) == LinkState::Unconnected,
    {
        *self = LinkState::Unconnected;
    }

    pub fn is_connected(&self) -> (r: bool)
        ensures
            r == (*self == LinkState::Connected),
    {
        *self == LinkState::Connected
    }
}

} // verus!
