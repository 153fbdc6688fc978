use vstd::prelude::*;
use tokio::sync::broadcast::Receiver;
use tokio::sync::broadcast::Sender;

verus! {

#[verifier::external_type_specification]
#[verifier::external_body]
#[verifier::reject_recursive_types(T)]
pub struct ExSender<T>(Sender<T>);

#[verifier::external_type_specification]
#[verifier::external_body]
#[verifier::reject_recursive_types(T)]
pub struct ExReceiver<T>(Receiver<T>);

/// Workspace summary carried by workspace events.
#[derive(Debug, PartialEq, Eq)]
pub struct WorkspaceInfo {
    pub id: u32,
    pub name: Option<String>,
    pub is_active: bool,
    pub is_focused: bool,
}

/// A wireless network as seen in a scan.
#[derive(Debug, PartialEq, Eq)]
pub struct WifiNetworkInfo {
    pub ssid: String,
    pub signal_strength: u8,
    pub secured: bool,
    pub connected: bool,
}

/// A bluetooth device known to the adapter.
#[derive(Debug, PartialEq, Eq)]
pub struct BluetoothDeviceInfo {
    pub address: String,
    pub name: String,
    pub connected: bool,
    pub paired: bool,
}

impl Clone for WorkspaceInfo {
    fn clone(&self) -> (r: Self)
        ensures
            r == *self,
    {
        let name = match &self.name {
            Some(n) => Some(n.clone()),
            None => None,
        };
        WorkspaceInfo { id: self.id, name, is_active: self.is_active, is_focused: self.is_focused }
    }
}

impl Clone for WifiNetworkInfo {
    fn clone(&self) -> (r: Self)
        ensures
            r == *self,
    {
        WifiNetworkInfo {
            ssid: self.ssid.clone(),
            signal_strength: self.signal_strength,
            secured: self.secured,
            connected: self.connected,
        }
    }
}

impl Clone for BluetoothDeviceInfo {
    fn clone(&self) -> (r: Self)
        ensures
            r == *self,
    {
        BluetoothDeviceInfo {
            address: self.address.clone(),
            name: self.name.clone(),
            connected: self.connected,
            paired: self.paired,
        }
    }
}

/// Popups that can be requested through the bus.
#[derive(Debug, Clone, Copy, PartialEq, Eq, Structural)]
pub enum PopupType {
    Bluetooth,
    Wifi,
    MediaControl,
    Power,
}

/// One observable state change. Levels and percentages are whole percent.
#[allow(inconsistent_fields)]
#[derive(Debug, Clone, PartialEq, Eq)]
pub enum Event {
    WorkspaceChanged { id: u32 },
    WorkspaceCreated { id: u32, name: Option<String> },
    WorkspaceRemoved { id: u32 },
    WorkspacesUpdated { workspaces: Vec<WorkspaceInfo> },
    VolumeChanged { level: u32, muted: bool },
    BrightnessChanged { level: u32 },
    CpuUsageChanged { usage: u32 },
    MemoryUsageChanged { used: u64, total: u64, percent: u32 },
    TemperatureChanged { celsius: i32 },
    WifiStateChanged { enabled: bool },
    WifiNetworkConnected { ssid: String },
    WifiNetworkDisconnected,
    WifiNetworksUpdated { networks: Vec<WifiNetworkInfo> },
    BluetoothStateChanged { enabled: bool },
    BluetoothDeviceConnected { address: String, name: String },
    BluetoothDeviceDisconnected { address: String },
    BluetoothDevicesUpdated { devices: Vec<BluetoothDeviceInfo> },
    MediaPlayerChanged { player: Option<String> },
    MediaTrackChanged { title: String, artist: String, album: Option<String> },
    MediaPlaybackChanged { playing: bool },
    MediaVolumeChanged { volume: u32 },
    BatteryChanged { percentage: u32, state: String, is_charging: bool },
    PopupRequested { popup_type: PopupType },
    PopupClosed { popup_type: PopupType },
}

/// Relies on tokio::sync::broadcast::channel: builds a channel of the given
/// capacity; it panics on a capacity of zero or above `usize::MAX / 2`.
#[verifier::external_body]
fn open_channel(capacity: usize) -> (r: Sender<Event>)
    requires
        0 < capacity <= usize::MAX / 2,
{
    let (sender, _) = tokio::sync::broadcast::channel(capacity);
    sender
}

/// Relies on tokio::sync::broadcast::Sender::send: hands the event to every
/// current receiver; with no receiver it is dropped (the error is ignored).
/// It does not block and does not panic.
#[verifier::external_body]
fn channel_send(sender: &Sender<Event>, event: Event) {
    let _ = sender.send(event);
}

/// Relies on tokio::sync::broadcast::Sender::subscribe: a receiver that
/// starts at the channel's tail, so it sees only what is sent after this
/// call. It panics only with `usize::MAX / 4` receivers alive at once, which
/// no process can hold in memory.
#[verifier::external_body]
fn channel_subscribe(sender: &Sender<Event>) -> Receiver<Event> {
    sender.subscribe()
}

/// Relies on tokio::sync::broadcast::Sender::receiver_count.
#[verifier::external_body]
fn channel_receiver_count(sender: &Sender<Event>) -> usize {
    sender.receiver_count()
}

/// Relies on tokio::sync::broadcast::Sender's Clone: another handle on the
/// same channel.
#[verifier::external_body]
fn channel_clone(sender: &Sender<Event>) -> Sender<Event> {
    sender.clone()
}

/// Handle on the process-wide broadcast bus.
///
/// Publishing never blocks and never fails; a publish with no subscriber is
/// dropped, and a subscriber that lags past the capacity loses the oldest
/// events it has not read. Each handle keeps, as ghost state, the sequence
/// of events published through it.
pub struct EventManager {
    sender: Sender<Event>,
    log: Ghost<Seq<Event>>,
}

/// Capacity of the bus built by `EventManager::default`.
pub const DEFAULT_CAPACITY: usize = 100;

/// A publish record after publishing `e` through it; no record stays none.
pub open spec fn record_after(log: Option<Seq<Event>>, e: Event) -> Option<Seq<Event>> {
    match log {
        Some(l) => Some(l.push(e)),
        None => None,
    }
}

impl EventManager {
    /// Events published through this handle, oldest first.
    pub closed spec fn published(&self) -> Seq<Event> {
        self.log@
    }

    /// Create a bus with the given capacity.
    pub fn new(capacity: usize) -> (r: Self)
        requires
            0 < capacity <= usize::MAX / 2,
        ensures
            r.published() == Seq::<Event>::empty(),
    {
        EventManager { sender: open_channel(capacity), log: Ghost(Seq::empty()) }
    }

    /// Publish an event to every current subscriber.
    pub fn emit(&mut self, event: Event)
        ensures
            final(self).published() == old(self).published().push(event),
    {
        proof {
            self.log@ = self.log@.push(event);
        }
        channel_send(&self.sender, event);
    }

    /// A receiver that observes every event published after this call and
    /// none published before.
    pub fn subscribe(&self) -> Receiver<Event> {
        channel_subscribe(&self.sender)
    }

    /// Number of live receivers.
    pub fn subscriber_count(&self) -> usize {
        channel_receiver_count(&self.sender)
    }

    /// Another handle on the same bus, with an empty publish record.
    pub fn share(&self) -> (r: Self)
        ensures
            r.published() == Seq::<Event>::empty(),
    {
        EventManager { sender: channel_clone(&self.sender), log: Ghost(Seq::empty()) }
    }
}

impl Clone for EventManager {
    fn clone(&self) -> (r: Self)
        ensures
            r.published() == Seq::<Event>::empty(),
    {
        self.share()
    }
}

impl Default for EventManager {
    fn default() -> (r: Self)
        ensures
            r.published() == Seq::<Event>::empty(),
    {
        EventManager::new(DEFAULT_CAPACITY)
    }
}

} // verus!
