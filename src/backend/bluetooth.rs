use vstd::prelude::*;
use crate::backend::link::{connect_failure, connect_result, LinkState};
use crate::error::AmiyaError;
use crate::events::{record_after, BluetoothDeviceInfo, Event, EventManager};

pub use crate::events::BluetoothDeviceInfo as BluetoothDevice;

verus! {

/// `s` with every ':' replaced by '_'.
pub open spec fn underscored(s: Seq<char>) -> Seq<char> {
    Seq::new(s.len(), |i: int| if s[i] == ':' { '_' } else { s[i] })
}

/// Object path of the device with the given address on the first adapter.
pub open spec fn device_object_path(address: Seq<char>) -> Seq<char> {
    "/org/bluez/hci0/dev_"@ + underscored(address)
}

/// The bus object path of a device, from its address
/// (AA:BB:CC:DD:EE:FF gives /org/bluez/hci0/dev_AA_BB_CC_DD_EE_FF).
pub fn device_path(address: &str) -> (r: String)
    ensures
        r@ == device_object_path(address@),
{
    let prefix = "/org/bluez/hci0/dev_";
    proof {
        reveal_strlit("/org/bluez/hci0/dev_");
        reveal_strlit("_");
    }
    let mut out = prefix.to_owned();
    let n = address.unicode_len();
    let mut i: usize = 0;
    while i < n
        invariant
            n == address@.len(),
            i <= n,
            out@ == prefix@ + underscored(address@).subrange(0, i as int),
        decreases n - i,
    {
        let c = address.get_char(i);
        let ghost before = out@;
        if c == ':' {
            let us = "_";
            proof {
                reveal_strlit("_");
            }
            assert(us@ =~= seq!['_']);
            out.append(us);
        } else {
            let piece = address.substring_char(i, i + 1);
            out.append(piece);
            assert(piece@ =~= seq![c]);
        }
        assert(out@ =~= before.push(underscored(address@)[i as int]));
        assert(underscored(address@).subrange(0, i + 1) =~= underscored(address@).subrange(0, i as int).push(
            underscored(address@)[i as int],
        ));
        i += 1;
    }
    assert(underscored(address@).subrange(0, n as int) =~= underscored(address@));
    out
}

/// `e` publishes exactly the device list `d`.
pub open spec fn lists_devices(e: Event, d: Seq<BluetoothDevice>) -> bool {
    e matches Event::BluetoothDevicesUpdated { devices } && devices@ == d
}

/// Each address appears once, as in a table keyed by address.
pub open spec fn unique_addresses(d: Seq<BluetoothDevice>) -> bool {
    forall|i: int, j: int| 0 <= i < j < d.len() ==> (#[trigger] d[i]).address@ != (#[trigger] d[j]).address@
}

/// Copy of a device list, element by element.
pub fn copy_devices(v: &Vec<BluetoothDevice>) -> (r: Vec<BluetoothDevice>)
    ensures
        r@ == v@,
{
    let r = v.clone();
    assert(r@ =~= v@);
    r
}

/// Bluetooth control through the bluetooth daemon.
pub struct BluetoothControl {
    link: LinkState,
    adapter_path: Option<String>,
    devices: Vec<BluetoothDevice>,
    powered: bool,
    scanning: bool,
    events: Option<EventManager>,
}

impl BluetoothControl {
    pub closed spec fn link(&self) -> LinkState {
        self.link
    }

    pub closed spec fn adapter(&self) -> Option<Seq<char>> {
        match self.adapter_path {
            Some(p) => Some(p@),
            None => None,
        }
    }

    /// Known devices.
    pub closed spec fn devices(&self) -> Seq<BluetoothDevice> {
        self.devices@
    }

    /// Known devices are keyed by address: no address appears twice.
    pub closed spec fn wf(&self) -> bool {
        unique_addresses(self.devices@)
    }

    pub closed spec fn powered(&self) -> bool {
        self.powered
    }

    pub closed spec fn scanning(&self) -> bool {
        self.scanning
    }

    pub closed spec fn published(&self) -> Option<Seq<Event>> {
        match self.events {
            Some(e) => Some(e.published()),
            None => None,
        }
    }

    pub fn new() -> (r: Self)
        ensures
            r.link() == LinkState::Unconnected,
            r.adapter() is None,
            r.devices() == Seq::<BluetoothDevice>::empty(),
            r.wf(),
            !r.powered(),
            !r.scanning(),
            r.published() == None::<Seq<Event>>,
    {
        BluetoothControl {
            link: LinkState::Unconnected,
            adapter_path: None,
            devices: Vec::new(),
            powered: false,
            scanning: false,
            events: None,
        }
    }

    pub fn with_events(events: EventManager) -> (r: Self)
        ensures
            r.link() == LinkState::Unconnected,
            r.adapter() is None,
            r.devices() == Seq::<BluetoothDevice>::empty(),
            r.wf(),
            !r.powered(),
            !r.scanning(),
            r.published() == Some(events.published()),
    {
        BluetoothControl {
            link: LinkState::Unconnected,
            adapter_path: None,
            devices: Vec::new(),
            powered: false,
            scanning: false,
            events: Some(events),
        }
    }

    /// Start connecting to the system bus; true when a connection must be
    /// opened. While connected this changes nothing.
    pub fn connect(&mut self) -> (open: bool)
        ensures
            open == (old(self).link() != LinkState::Connected),
            !open ==> *final(self) == *old(self),
            open ==> final(self).link() == LinkState::Connecting,
            final(self).adapter() == old(self).adapter(),
            final(self).devices() == old(self).devices(),
            final(self).wf() == old(self).wf(),
            final(self).powered() == old(self).powered(),
            final(self).scanning() == old(self).scanning(),
            final(self).published() == old(self).published(),
    {
        self.link.begin_connect()
    }

    /// Record whether the connection was opened.
    pub fn finish_connect(&mut self, outcome: Result<(), String>) -> (r: Result<(), AmiyaError>)
        ensures
            final(self).link() == (if outcome is Ok { LinkState::Connected } else { LinkState::Unconnected }),
            connect_result(outcome, r),
            final(self).adapter() == old(self).adapter(),
            final(self).devices() == old(self).devices(),
            final(self).wf() == old(self).wf(),
            final(self).powered() == old(self).powered(),
            final(self).scanning() == old(self).scanning(),
            final(self).published() == old(self).published(),
    {
        match outcome {
            Ok(_) => {
                self.link.finish_connect(true);
                Ok(())
            },
            Err(m) => {
                self.link.finish_connect(false);
                Err(connect_failure(m))
            },
        }
    }

    /// Record the adapter found on the bus with its `Powered` and
    /// `Discovering` properties, then publish the device list.
    pub fn adapter_found(&mut self, path: String, powered: bool, discovering: bool)
        ensures
            final(self).adapter() == Some(path@),
            final(self).powered() == powered,
            final(self).scanning() == discovering,
            final(self).devices() == old(self).devices(),
            final(self).wf() == old(self).wf(),
            final(self).link() == old(self).link(),
            exists|e: Event| lists_devices(e, old(self).devices()) && final(self).published()
                == record_after(old(self).published(), e),
    {
        self.adapter_path = Some(path);
        self.powered = powered;
        self.scanning = discovering;
        self.update_device_list();
    }

    /// Publish the known devices.
    pub fn update_device_list(&mut self)
        ensures
            exists|e: Event| lists_devices(e, old(self).devices()) && final(self).published()
                == record_after(old(self).published(), e),
            final(self).adapter() == old(self).adapter(),
            final(self).devices() == old(self).devices(),
            final(self).wf() == old(self).wf(),
            final(self).powered() == old(self).powered(),
            final(self).scanning() == old(self).scanning(),
            final(self).link() == old(self).link(),
    {
        let devices = copy_devices(&self.devices);
        let ev = Event::BluetoothDevicesUpdated { devices };
        assert(lists_devices(ev, old(self).devices()));
        match &mut self.events {
            Some(events) => events.emit(ev),
            None => {},
        }
    }

    /// An input/output failure on the live connection drops it; the cache
    /// stays as it was.
    pub fn connection_lost(&mut self)
        ensures
            final(self).link() == LinkState::Unconnected,
            final(self).adapter() == old(self).adapter(),
            final(self).devices() == old(self).devices(),
            final(self).wf() == old(self).wf(),
            final(self).powered() == old(self).powered(),
            final(self).scanning() == old(self).scanning(),
            final(self).published() == old(self).published(),
    {
        self.link.connection_lost();
    }

    /// True when connected and an adapter was found.
    pub fn is_available(&self) -> (r: bool)
        ensures
            r == (self.link() == LinkState::Connected && self.adapter() is Some),
    {
        self.link.is_connected() && self.adapter_path.is_some()
    }

    pub fn is_powered(&self) -> (r: Result<bool, AmiyaError>)
        ensures
            r == Ok::<bool, AmiyaError>(self.powered()),
    {
        Ok(self.powered)
    }

    /// The adapter to call, or why there is none.
    pub fn require_adapter(&self) -> (r: Result<&String, AmiyaError>)
        ensures
            match r {
                Ok(p) => self.link() == LinkState::Connected && self.adapter() == Some(p@),
                Err(_) => !(self.link() == LinkState::Connected && self.adapter() is Some),
            },
    {
        if !self.link.is_connected() {
            return Err(AmiyaError::Backend("Not connected to D-Bus".to_owned()));
        }
        match &self.adapter_path {
            Some(p) => Ok(p),
            None => Err(AmiyaError::Backend("No adapter available".to_owned())),
        }
    }

    /// Record that the adapter accepted a new `Powered` value, and publish
    /// one `BluetoothStateChanged` event.
    pub fn apply_powered(&mut self, enabled: bool)
        ensures
            final(self).powered() == enabled,
            final(self).published() == record_after(
                old(self).published(),
                Event::BluetoothStateChanged { enabled },
            ),
            final(self).adapter() == old(self).adapter(),
            final(self).devices() == old(self).devices(),
            final(self).wf() == old(self).wf(),
            final(self).scanning() == old(self).scanning(),
            final(self).link() == old(self).link(),
    {
        self.powered = enabled;
        match &mut self.events {
            Some(events) => events.emit(Event::BluetoothStateChanged { enabled }),
            None => {},
        }
    }

    /// Record that discovery was started or stopped.
    pub fn apply_scanning(&mut self, scanning: bool)
        ensures
            final(self).scanning() == scanning,
            final(self).powered() == old(self).powered(),
            final(self).adapter() == old(self).adapter(),
            final(self).devices() == old(self).devices(),
            final(self).wf() == old(self).wf(),
            final(self).link() == old(self).link(),
            final(self).published() == old(self).published(),
    {
        self.scanning = scanning;
    }

    /// The known devices.
    pub fn get_devices(&self) -> (r: Result<Vec<BluetoothDevice>, AmiyaError>)
        ensures
            r matches Ok(v) && v@ == self.devices(),
    {
        Ok(copy_devices(&self.devices))
    }
}

impl Default for BluetoothControl {
    fn default() -> (r: Self)
        ensures
            r.link() == LinkState::Unconnected,
            r.adapter() is None,
            r.published() == None::<Seq<Event>>,
    {
        BluetoothControl::new()
    }
}

} // verus!
