use vstd::prelude::*;
use crate::backend::audio::AudioControl;
use crate::backend::backlight::BacklightControl;
use crate::backend::battery::BatteryControl;
use crate::backend::bluetooth::BluetoothControl;
use crate::backend::link::LinkState;
use crate::backend::media::MediaControl;
use crate::backend::network::NetworkControl;
use crate::backend::niri::client::NiriClient;
use crate::backend::power::PowerControl;
use crate::config::Config;
use crate::error::BackendStatus;
use crate::events::{Event, EventManager};

verus! {

/// The registry: configuration, the bus, and one optional adapter per
/// subsystem; `None` means that the subsystem is unavailable on this host.
pub struct AppState {
    pub config: Config,
    pub events: EventManager,
    pub backend_status: BackendStatus,
    pub niri_client: Option<NiriClient>,
    pub audio_control: Option<AudioControl>,
    pub backlight_control: Option<BacklightControl>,
    pub bluetooth_control: Option<BluetoothControl>,
    pub network_control: Option<NetworkControl>,
    pub media_control: Option<MediaControl>,
    pub battery_control: Option<BatteryControl>,
    pub power_control: Option<PowerControl>,
}

/// `a` and `b` hold the same configuration, compositor client and
/// adapters, except the audio adapter when `audio` and the backlight adapter
/// when `backlight`.
pub open spec fn same_except(a: AppState, b: AppState, audio: bool, backlight: bool) -> bool {
    &&& a.config == b.config
    &&& a.backend_status == b.backend_status
    &&& a.niri_client == b.niri_client
    &&& (audio || a.audio_control == b.audio_control)
    &&& (backlight || a.backlight_control == b.backlight_control)
    &&& a.bluetooth_control == b.bluetooth_control
    &&& a.network_control == b.network_control
    &&& a.media_control == b.media_control
    &&& a.battery_control == b.battery_control
    &&& a.power_control == b.power_control
}

impl AppState {
    /// Every present adapter is well formed.
    pub open spec fn wf(&self) -> bool {
        &&& (self.audio_control matches Some(a) ==> a.wf())
        &&& (self.backlight_control matches Some(b) ==> b.wf())
    }

    /// Build the registry: every adapter is created unconnected with its
    /// neutral cache and a handle on one new bus; construction never fails
    /// and makes no connection. The compositor client exists when a
    /// compositor socket was found, and the backlight adapter uses the device
    /// found, if any.
    pub fn new(config: Config, niri_socket: Option<String>, backlight_device: Option<String>) -> (r: Self)
        ensures
            r.wf(),
            r.config == config,
            r.events.published() == Seq::<Event>::empty(),
            r.backend_status == (if niri_socket is Some { BackendStatus::Available } else { BackendStatus::Unavailable }),
            r.niri_client is Some <==> niri_socket is Some,
            r.audio_control matches Some(a) && a.volume() == 50 && !a.muted() && a.link() == LinkState::Unconnected,
            r.backlight_control matches Some(b) && b.brightness() == 50 && b.device_name() == (match backlight_device {
                Some(d) => Some(d@),
                None => None::<Seq<char>>,
            }),
            r.bluetooth_control matches Some(bt) && bt.link() == LinkState::Unconnected && !bt.powered(),
            r.network_control matches Some(n) && n.link() == LinkState::Unconnected && !n.wifi_enabled(),
            r.media_control matches Some(m) && m.link() == LinkState::Unconnected && m.volume() == 100,
            r.battery_control matches Some(bat) && bat.link() == LinkState::Unconnected,
            r.power_control matches Some(p) && p.link() == LinkState::Unconnected,
    {
        let events = EventManager::default();
        let backend_status = if niri_socket.is_some() {
            BackendStatus::Available
        } else {
            BackendStatus::Unavailable
        };
        let niri_client = match niri_socket {
            Some(s) => Some(NiriClient::new(s)),
            None => None,
        };
        let audio_control = Some(AudioControl::with_events(events.share()));
        let backlight_control = Some(BacklightControl::with_device(backlight_device, Some(events.share())));
        let bluetooth_control = Some(BluetoothControl::with_events(events.share()));
        let network_control = Some(NetworkControl::with_events(events.share()));
        let media_control = Some(MediaControl::with_events(events.share()));
        let battery_control = Some(BatteryControl::with_events(events.share()));
        let power_control = Some(PowerControl::new());
        AppState {
            config,
            events,
            backend_status,
            niri_client,
            audio_control,
            backlight_control,
            bluetooth_control,
            network_control,
            media_control,
            battery_control,
            power_control,
        }
    }
}

} // verus!
