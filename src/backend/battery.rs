use vstd::prelude::*;
use crate::backend::devices::{first_of_kind, first_of_type};
use crate::backend::link::{connect_failure, connect_result, LinkState};
use crate::backend::strings::{decimal, decimal_text};
use crate::error::AmiyaError;
use crate::events::{record_after, Event, EventManager};

verus! {

/// Charge state of a battery.
#[derive(Debug, Clone, Copy, PartialEq, Eq, Structural)]
pub enum BatteryState {
    Charging,
    Discharging,
    FullyCharged,
    Empty,
    Unknown,
}

/// The state for a power daemon state code.
pub open spec fn state_of_code(v: u32) -> BatteryState {
    if v == 1 {
        BatteryState::Charging
    } else if v == 2 {
        BatteryState::Discharging
    } else if v == 3 {
        BatteryState::Empty
    } else if v == 4 {
        BatteryState::FullyCharged
    } else {
        BatteryState::Unknown
    }
}

pub open spec fn state_label(s: BatteryState) -> Seq<char> {
    match s {
        BatteryState::Charging => "Charging"@,
        BatteryState::Discharging => "Discharging"@,
        BatteryState::FullyCharged => "Fully Charged"@,
        BatteryState::Empty => "Empty"@,
        BatteryState::Unknown => "Unknown"@,
    }
}

impl BatteryState {
    /// The state for a power daemon state code; unknown codes map to
    /// `Unknown`.
    pub fn from_code(value: u32) -> (r: Self)
        ensures
            r == state_of_code(value),
    {
        match value {
            1 => BatteryState::Charging,
            2 => BatteryState::Discharging,
            3 => BatteryState::Empty,
            4 => BatteryState::FullyCharged,
            _ => BatteryState::Unknown,
        }
    }

    /// Name of the state, as shown to users.
    pub fn label(&self) -> (r: String)
        ensures
            r@ == state_label(*self),
    {
        let s = match self {
            BatteryState::Charging => "Charging",
            BatteryState::Discharging => "Discharging",
            BatteryState::FullyCharged => "Fully Charged",
            BatteryState::Empty => "Empty",
            BatteryState::Unknown => "Unknown",
        };
        proof {
            reveal_strlit("Charging");
            reveal_strlit("Discharging");
            reveal_strlit("Fully Charged");
            reveal_strlit("Empty");
            reveal_strlit("Unknown");
        }
        s.to_owned()
    }
}

impl From<u32> for BatteryState {
    fn from(value: u32) -> (r: Self)
        ensures
            r == state_of_code(value),
    {
        BatteryState::from_code(value)
    }
}

impl vstd::std_specs::convert::FromSpecImpl<u32> for BatteryState {
    open spec fn obeys_from_spec() -> bool {
        true
    }

    open spec fn from_spec(v: u32) -> Self {
        state_of_code(v)
    }
}

/// Battery snapshot. Times are in seconds.
#[derive(Debug, Clone, Copy, PartialEq, Eq, Structural)]
pub struct BatteryInfo {
    pub percentage: u32,
    pub state: BatteryState,
    pub time_to_empty: Option<i64>,
    pub time_to_full: Option<i64>,
    pub is_present: bool,
}

impl Default for BatteryInfo {
    fn default() -> (r: Self)
        ensures
            r == (BatteryInfo {
                percentage: 0,
                state: BatteryState::Unknown,
                time_to_empty: None,
                time_to_full: None,
                is_present: false,
            }),
    {
        BatteryInfo {
            percentage: 0,
            state: BatteryState::Unknown,
            time_to_empty: None,
            time_to_full: None,
            is_present: false,
        }
    }
}

/// Raw properties read from the power daemon's battery device.
#[derive(Debug, Clone, Copy, PartialEq, Eq, Structural)]
pub struct BatteryReading {
    pub percentage: u32,
    pub state: u32,
    pub time_to_empty: i64,
    pub time_to_full: i64,
    pub is_present: bool,
}

/// A duration, kept only when positive.
pub open spec fn positive_time(t: i64) -> Option<i64> {
    if t > 0 {
        Some(t)
    } else {
        None
    }
}

/// The snapshot that a reading stands for.
pub open spec fn info_of(r: BatteryReading) -> BatteryInfo {
    BatteryInfo {
        percentage: r.percentage,
        state: state_of_code(r.state),
        time_to_empty: positive_time(r.time_to_empty),
        time_to_full: positive_time(r.time_to_full),
        is_present: r.is_present,
    }
}

/// Device type code of a battery in the power daemon.
pub const BATTERY_DEVICE_TYPE: u32 = 2;

/// Choose the battery among the power daemon's devices, given as pairs of
/// object path and device type: the first of type battery.
pub fn pick_battery_device(devices: &Vec<(String, u32)>) -> (r: Option<String>)
    ensures
        match r {
            Some(p) => exists|i: int| first_of_kind(devices@, BATTERY_DEVICE_TYPE, i) && #[trigger] devices@[i].0 == p,
            None => forall|j: int| 0 <= j < devices.len() ==> (#[trigger] devices@[j]).1 != BATTERY_DEVICE_TYPE,
        },
{
    first_of_type(devices, BATTERY_DEVICE_TYPE)
}

/// Rendering of a duration in seconds: "Unknown" when not positive, else
/// hours and minutes ("2h 30m"), or minutes alone under an hour ("45m").
pub open spec fn time_text(seconds: int) -> Seq<char> {
    if seconds <= 0 {
        "Unknown"@
    } else if seconds / 3600 > 0 {
        decimal((seconds / 3600) as nat) + "h "@ + decimal(((seconds % 3600) / 60) as nat) + "m"@
    } else {
        decimal(((seconds % 3600) / 60) as nat) + "m"@
    }
}

/// Battery control through the power daemon.
pub struct BatteryControl {
    link: LinkState,
    device_path: Option<String>,
    info: BatteryInfo,
    events: Option<EventManager>,
}

impl BatteryControl {
    pub closed spec fn link(&self) -> LinkState {
        self.link
    }

    pub closed spec fn info(&self) -> BatteryInfo {
        self.info
    }

    pub closed spec fn device_path(&self) -> Option<Seq<char>> {
        match self.device_path {
            Some(p) => Some(p@),
            None => None,
        }
    }

    pub closed spec fn published(&self) -> Option<Seq<Event>> {
        match self.events {
            Some(e) => Some(e.published()),
            None => None,
        }
    }

    pub fn new() -> (r: Self)
        ensures
            r.link() == LinkState::Unconnected,
            r.device_path() is None,
            r.info().state == BatteryState::Unknown,
            r.info().percentage == 0,
            !r.info().is_present,
            r.published() == None::<Seq<Event>>,
    {
        BatteryControl {
            link: LinkState::Unconnected,
            device_path: None,
            info: BatteryInfo::default(),
            events: None,
        }
    }

    pub fn with_events(events: EventManager) -> (r: Self)
        ensures
            r.link() == LinkState::Unconnected,
            r.device_path() is None,
            r.info().state == BatteryState::Unknown,
            r.info().percentage == 0,
            !r.info().is_present,
            r.published() == Some(events.published()),
    {
        BatteryControl {
            link: LinkState::Unconnected,
            device_path: None,
            info: BatteryInfo::default(),
            events: Some(events),
        }
    }

    /// Start connecting to the system bus; true when a connection must be
    /// opened. While connected this changes nothing.
    pub fn connect(&mut self) -> (open: bool)
        ensures
            open == (old(self).link() != LinkState::Connected),
            !open ==> *final(self) == *old(self),
            open ==> final(self).link() == LinkState::Connecting,
            final(self).info() == old(self).info(),
            final(self).device_path() == old(self).device_path(),
            final(self).published() == old(self).published(),
    {
        self.link.begin_connect()
    }

    /// Record whether the connection was opened.
    pub fn finish_connect(&mut self, outcome: Result<(), String>) -> (r: Result<(), AmiyaError>)
        ensures
            final(self).link() == (if outcome is Ok { LinkState::Connected } else { LinkState::Unconnected }),
            connect_result(outcome, r),
            final(self).info() == old(self).info(),
            final(self).device_path() == old(self).device_path(),
            final(self).published() == old(self).published(),
    {
        match outcome {
            Ok(_) => {
                self.link.finish_connect(true);
                Ok(())
            },
            Err(m) => {
                self.link.finish_connect(false);
                Err(connect_failure(m))
            },
        }
    }

    /// Whether a connection attempt is due: none is live.
    pub fn needs_connect(&self) -> (r: bool)
        ensures
            r == (self.link() != LinkState::Connected),
    {
        !self.link.is_connected()
    }

    /// An input/output failure on the live connection drops it; the cache
    /// stays as it was.
    pub fn connection_lost(&mut self)
        ensures
            final(self).link() == LinkState::Unconnected,
            final(self).info() == old(self).info(),
            final(self).device_path() == old(self).device_path(),
            final(self).published() == old(self).published(),
    {
        self.link.connection_lost();
    }

    /// Record the battery device found on the bus; none found is an error.
    pub fn set_device(&mut self, path: Option<String>) -> (r: Result<(), AmiyaError>)
        ensures
            r is Ok <==> path is Some,
            final(self).device_path() == (match path {
                Some(p) => Some(p@),
                None => old(self).device_path(),
            }),
            final(self).link() == old(self).link(),
            final(self).info() == old(self).info(),
            final(self).published() == old(self).published(),
    {
        match path {
            Some(p) => {
                self.device_path = Some(p);
                Ok(())
            },
            None => Err(AmiyaError::Backend("No battery device found".to_owned())),
        }
    }

    /// The device to read, or why there is none to read.
    pub fn device(&self) -> (r: Result<&String, AmiyaError>)
        ensures
            self.link() != LinkState::Connected ==> r is Err,
            self.link() == LinkState::Connected ==> match self.device_path() {
                Some(p) => r matches Ok(q) && q@ == p,
                None => r is Err,
            },
    {
        if !self.link.is_connected() {
            return Err(AmiyaError::Backend("Not connected to D-Bus".to_owned()));
        }
        match &self.device_path {
            Some(p) => Ok(p),
            None => Err(AmiyaError::Backend("No battery device found".to_owned())),
        }
    }

    /// Take a reading of the device into the cache and publish one
    /// `BatteryChanged` event; refused, with nothing changed, while there is
    /// no connection or no device.
    pub fn apply_reading(&mut self, reading: BatteryReading) -> (r: Result<(), AmiyaError>)
        ensures
            final(self).link() == old(self).link(),
            final(self).device_path() == old(self).device_path(),
            (old(self).link() == LinkState::Connected && old(self).device_path() is Some) <==> r is Ok,
            r is Ok ==> final(self).info() == info_of(reading),
            r is Ok ==> exists|label: String| label@ == state_label(state_of_code(reading.state))
                && final(self).published() == record_after(old(self).published(), Event::BatteryChanged {
                    percentage: reading.percentage,
                    state: label,
                    is_charging: state_of_code(reading.state) == BatteryState::Charging,
                }),
            r is Err ==> *final(self) == *old(self),
    {
        match self.device() {
            Err(e) => Err(e),
            Ok(_) => {
                let state = BatteryState::from_code(reading.state);
                self.info = BatteryInfo {
                    percentage: reading.percentage,
                    state,
                    time_to_empty: if reading.time_to_empty > 0 { Some(reading.time_to_empty) } else { None },
                    time_to_full: if reading.time_to_full > 0 { Some(reading.time_to_full) } else { None },
                    is_present: reading.is_present,
                };
                let label = state.label();
                let ev = Event::BatteryChanged {
                    percentage: reading.percentage,
                    state: label,
                    is_charging: state == BatteryState::Charging,
                };
                match &mut self.events {
                    Some(events) => events.emit(ev),
                    None => {},
                }
                Ok(())
            },
        }
    }

    /// Cached snapshot.
    pub fn get_info(&self) -> (r: BatteryInfo)
        ensures
            r == self.info(),
    {
        self.info
    }

    pub fn get_percentage(&self) -> (r: u32)
        ensures
            r == self.info().percentage,
    {
        self.info.percentage
    }

    pub fn get_state(&self) -> (r: BatteryState)
        ensures
            r == self.info().state,
    {
        self.info.state
    }

    pub fn is_charging(&self) -> (r: bool)
        ensures
            r == (self.info().state == BatteryState::Charging),
    {
        self.info.state == BatteryState::Charging
    }

    pub fn is_present(&self) -> (r: bool)
        ensures
            r == self.info().is_present,
    {
        self.info.is_present
    }

    pub fn get_time_to_empty(&self) -> (r: Option<i64>)
        ensures
            r == self.info().time_to_empty,
    {
        self.info.time_to_empty
    }

    pub fn get_time_to_full(&self) -> (r: Option<i64>)
        ensures
            r == self.info().time_to_full,
    {
        self.info.time_to_full
    }

    /// Render a duration in seconds for display.
    pub fn format_time(seconds: i64) -> (r: String)
        ensures
            r@ == time_text(seconds as int),
    {
        proof {
            reveal_strlit("Unknown");
            reveal_strlit("h ");
            reveal_strlit("m");
        }
        if seconds <= 0 {
            return "Unknown".to_owned();
        }
        let hours = seconds / 3600;
        let minutes = (seconds % 3600) / 60;
        if hours > 0 {
            let s = decimal_text(hours as u64).concat("h ").concat(decimal_text(minutes as u64).as_str()).concat("m");
            assert(s@ =~= time_text(seconds as int));
            s
        } else {
            decimal_text(minutes as u64).concat("m")
        }
    }
}

impl Default for BatteryControl {
    fn default() -> (r: Self)
        ensures
            r.link() == LinkState::Unconnected,
            r.device_path() is None,
            r.published() == None::<Seq<Event>>,
    {
        BatteryControl::new()
    }
}

} // verus!
