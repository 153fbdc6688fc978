use vstd::prelude::*;
use crate::backend::link::{connect_failure, connect_result, LinkState};
use crate::backend::strings::str_eq;
use crate::error::AmiyaError;

verus! {

/// Session and machine power actions.
#[derive(Debug, Clone, Copy, PartialEq, Eq, Structural)]
pub enum PowerAction {
    Shutdown,
    Reboot,
    Suspend,
    Hibernate,
    Lock,
}

/// Name of each action, as shown to users.
pub open spec fn power_label(a: PowerAction) -> Seq<char> {
    match a {
        PowerAction::Shutdown => "Shutdown"@,
        PowerAction::Reboot => "Reboot"@,
        PowerAction::Suspend => "Suspend"@,
        PowerAction::Hibernate => "Hibernate"@,
        PowerAction::Lock => "Lock"@,
    }
}

/// The login manager method that performs each action (`Lock` is a method of
/// the caller's session, the others of the manager).
pub open spec fn logind_method(a: PowerAction) -> Seq<char> {
    match a {
        PowerAction::Shutdown => "PowerOff"@,
        PowerAction::Reboot => "Reboot"@,
        PowerAction::Suspend => "Suspend"@,
        PowerAction::Hibernate => "Hibernate"@,
        PowerAction::Lock => "Lock"@,
    }
}

/// The login manager query that tells whether an action is allowed; `Lock`
/// needs none.
pub open spec fn capability_method(a: PowerAction) -> Option<Seq<char>> {
    match a {
        PowerAction::Shutdown => Some("CanPowerOff"@),
        PowerAction::Reboot => Some("CanReboot"@),
        PowerAction::Suspend => Some("CanSuspend"@),
        PowerAction::Hibernate => Some("CanHibernate"@),
        PowerAction::Lock => None,
    }
}

impl PowerAction {
    pub fn label(&self) -> (r: &'static str)
        ensures
            r@ == power_label(*self),
    {
        proof {
            reveal_strlit("Shutdown");
            reveal_strlit("Reboot");
            reveal_strlit("Suspend");
            reveal_strlit("Hibernate");
            reveal_strlit("Lock");
        }
        match self {
            PowerAction::Shutdown => "Shutdown",
            PowerAction::Reboot => "Reboot",
            PowerAction::Suspend => "Suspend",
            PowerAction::Hibernate => "Hibernate",
            PowerAction::Lock => "Lock",
        }
    }

    pub fn method(&self) -> (r: &'static str)
        ensures
            r@ == logind_method(*self),
    {
        proof {
            reveal_strlit("PowerOff");
            reveal_strlit("Reboot");
            reveal_strlit("Suspend");
            reveal_strlit("Hibernate");
            reveal_strlit("Lock");
        }
        match self {
            PowerAction::Shutdown => "PowerOff",
            PowerAction::Reboot => "Reboot",
            PowerAction::Suspend => "Suspend",
            PowerAction::Hibernate => "Hibernate",
            PowerAction::Lock => "Lock",
        }
    }

    pub fn capability_method(&self) -> (r: Option<&'static str>)
        ensures
            match r {
                Some(m) => capability_method(*self) == Some(m@),
                None => capability_method(*self) is None,
            },
    {
        proof {
            reveal_strlit("CanPowerOff");
            reveal_strlit("CanReboot");
            reveal_strlit("CanSuspend");
            reveal_strlit("CanHibernate");
        }
        match self {
            PowerAction::Shutdown => Some("CanPowerOff"),
            PowerAction::Reboot => Some("CanReboot"),
            PowerAction::Suspend => Some("CanSuspend"),
            PowerAction::Hibernate => Some("CanHibernate"),
            PowerAction::Lock => None,
        }
    }
}

/// Whether a login manager answer to a capability query allows the action.
pub open spec fn answer_allows(answer: Seq<char>) -> bool {
    answer == "yes"@ || answer == "challenge"@
}

/// Power management through the login manager.
pub struct PowerControl {
    link: LinkState,
}

impl PowerControl {
    pub closed spec fn link(&self) -> LinkState {
        self.link
    }

    pub fn new() -> (r: Self)
        ensures
            r.link() == LinkState::Unconnected,
    {
        PowerControl { link: LinkState::Unconnected }
    }

    /// Start connecting to the system bus; true when a connection must be
    /// opened. While connected this changes nothing.
    pub fn connect(&mut self) -> (open: bool)
        ensures
            open == (old(self).link() != LinkState::Connected),
            !open ==> *final(self) == *old(self),
            open ==> final(self).link() == LinkState::Connecting,
    {
        self.link.begin_connect()
    }

    /// Record whether the connection was opened.
    pub fn finish_connect(&mut self, outcome: Result<(), String>) -> (r: Result<(), AmiyaError>)
        ensures
            final(self).link() == (if outcome is Ok { LinkState::Connected } else { LinkState::Unconnected }),
            connect_result(outcome, r),
    {
        match outcome {
            Ok(_) => {
                self.link.finish_connect(true);
                Ok(())
            },
            Err(m) => {
                self.link.finish_connect(false);
                Err(connect_failure(m))
            },
        }
    }

    /// An input/output failure on the live connection drops it; the cache
    /// stays as it was.
    pub fn connection_lost(&mut self)
        ensures
            final(self).link() == LinkState::Unconnected,
    {
        self.link.connection_lost();
    }

    pub fn is_available(&self) -> (r: bool)
        ensures
            r == (self.link() == LinkState::Connected),
    {
        self.link.is_connected()
    }

    /// The login manager method to call for `action`; refused while no
    /// connection is live.
    pub fn execute(&self, action: PowerAction) -> (r: Result<&'static str, AmiyaError>)
        ensures
            self.link() == LinkState::Connected ==> (r matches Ok(m) && m@ == logind_method(action)),
            self.link() != LinkState::Connected ==> (r matches Err(AmiyaError::Backend(m))
                && m@ == "Not connected to D-Bus"@),
    {
        if self.link.is_connected() {
            Ok(action.method())
        } else {
            let m = "Not connected to D-Bus";
            proof {
                reveal_strlit("Not connected to D-Bus");
            }
            Err(AmiyaError::Backend(m.to_owned()))
        }
    }

    /// Whether `action` can be run, given the answer (if any) that the login
    /// manager gave to the action's capability query.
    pub fn can_execute(&self, action: PowerAction, answer: Option<String>) -> (r: bool)
        ensures
            r == (self.link() == LinkState::Connected && (action == PowerAction::Lock || (
            match answer {
                Some(a) => answer_allows(a@),
                None => false,
            }))),
    {
        if !self.link.is_connected() {
            return false;
        }
        if action == PowerAction::Lock {
            return true;
        }
        proof {
            reveal_strlit("yes");
            reveal_strlit("challenge");
        }
        match answer {
            Some(a) => str_eq(a.as_str(), "yes") || str_eq(a.as_str(), "challenge"),
            None => false,
        }
    }
}

impl Default for PowerControl {
    fn default() -> (r: Self)
        ensures
            r.link() == LinkState::Unconnected,
    {
        PowerControl::new()
    }
}

} // verus!
