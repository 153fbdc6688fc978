use vstd::prelude::*;
use crate::backend::devices::{first_of_kind, first_of_type};
use crate::backend::link::{connect_failure, connect_result, LinkState};
use crate::error::AmiyaError;
use crate::events::{record_after, Event, EventManager, WifiNetworkInfo};

pub use crate::events::WifiNetworkInfo as WifiNetwork;

verus! {

/// Device type code of a wireless device in the network daemon.
pub const WIFI_DEVICE_TYPE: u32 = 2;

/// Properties of one access point, as read from the network daemon; an SSID
/// that is not valid UTF-8 is read as empty.
#[derive(Debug)]
pub struct AccessPoint {
    pub ssid: String,
    pub strength: u8,
    pub flags: u32,
    pub wpa_flags: u32,
    pub rsn_flags: u32,
}

/// The network an access point stands for.
pub open spec fn network_of(ap: AccessPoint) -> WifiNetwork {
    WifiNetwork {
        ssid: ap.ssid,
        signal_strength: ap.strength,
        secured: ap.wpa_flags != 0 || ap.rsn_flags != 0,
        connected: false,
    }
}

/// Networks of the access points that have an SSID, in scan order.
pub open spec fn named_networks(aps: Seq<AccessPoint>) -> Seq<WifiNetwork>
    decreases aps.len(),
{
    if aps.len() == 0 {
        Seq::empty()
    } else {
        let rest = named_networks(aps.drop_last());
        if aps.last().ssid@.len() > 0 {
            rest.push(network_of(aps.last()))
        } else {
            rest
        }
    }
}

/// Strongest signal first.
pub open spec fn strongest_first(s: Seq<WifiNetwork>) -> bool {
    forall|a: int, b: int| 0 <= a < b < s.len() ==> (#[trigger] s[a]).signal_strength >= (#[trigger] s[b]).signal_strength
}

/// `x` placed into `s` (strongest first) after every network at least as
/// strong, so that networks of equal strength keep their scan order.
pub open spec fn insert_by_strength(s: Seq<WifiNetwork>, x: WifiNetwork) -> Seq<WifiNetwork>
    decreases s.len(),
{
    if s.len() == 0 {
        seq![x]
    } else if s[0].signal_strength < x.signal_strength {
        seq![x] + s
    } else {
        seq![s[0]] + insert_by_strength(s.drop_first(), x)
    }
}

/// `s` sorted strongest first; equal strengths keep their order in `s`.
pub open spec fn by_strength(s: Seq<WifiNetwork>) -> Seq<WifiNetwork>
    decreases s.len(),
{
    if s.len() == 0 {
        Seq::empty()
    } else {
        insert_by_strength(by_strength(s.drop_last()), s.last())
    }
}

/// Inserting before the first weaker network is `insert_by_strength`.
proof fn lemma_insert_at_first_weaker(s: Seq<WifiNetwork>, x: WifiNetwork, pos: int)
    requires
        0 <= pos <= s.len(),
        forall|k: int| 0 <= k < pos ==> (#[trigger] s[k]).signal_strength >= x.signal_strength,
        pos == s.len() || s[pos].signal_strength < x.signal_strength,
    ensures
        s.insert(pos, x) == insert_by_strength(s, x),
    decreases s.len(),
{
    if s.len() == 0 {
        assert(s.insert(pos, x) =~= seq![x]);
    } else if pos == 0 {
        assert(s.insert(pos, x) =~= seq![x] + s);
    } else {
        let t = s.drop_first();
        assert forall|k: int| 0 <= k < pos - 1 implies (#[trigger] t[k]).signal_strength >= x.signal_strength by {
            assert(t[k] == s[k + 1]);
        };
        lemma_insert_at_first_weaker(t, x, pos - 1);
        assert(s.insert(pos, x) =~= seq![s[0]] + t.insert(pos - 1, x));
    }
}

/// `e` publishes exactly the network list `s`.
pub open spec fn lists_networks(e: Event, s: Seq<WifiNetwork>) -> bool {
    e matches Event::WifiNetworksUpdated { networks } && networks@ == s
}

/// `e` announces joining the network named `ssid`.
pub open spec fn joins(e: Event, ssid: Seq<char>) -> bool {
    e matches Event::WifiNetworkConnected { ssid: s } && s@ == ssid
}

/// Choose the wireless device among the network daemon's devices, given as
/// pairs of object path and device type: the first wireless one.
pub fn pick_wifi_device(devices: &Vec<(String, u32)>) -> (r: Option<String>)
    ensures
        match r {
            Some(p) => exists|i: int| first_of_kind(devices@, WIFI_DEVICE_TYPE, i) && #[trigger] devices@[i].0 == p,
            None => forall|j: int| 0 <= j < devices.len() ==> (#[trigger] devices@[j]).1 != WIFI_DEVICE_TYPE,
        },
{
    first_of_type(devices, WIFI_DEVICE_TYPE)
}

/// The networks of a scan: access points without an SSID are left out, and
/// the rest come strongest first.
pub fn scan_results(aps: &Vec<AccessPoint>) -> (r: Vec<WifiNetwork>)
    ensures
        r@ == by_strength(named_networks(aps@)),
        strongest_first(r@),
        r@.to_multiset() == named_networks(aps@).to_multiset(),
{
    broadcast use vstd::seq_lib::to_multiset_insert, vstd::seq_lib::to_multiset_build;
    let mut out: Vec<WifiNetwork> = Vec::new();
    let mut i: usize = 0;
    while i < aps.len()
        invariant
            i <= aps.len(),
            strongest_first(out@),
            out@ == by_strength(named_networks(aps@.subrange(0, i as int))),
            out@.to_multiset() == named_networks(aps@.subrange(0, i as int)).to_multiset(),
        decreases aps.len() - i,
    {
        let ghost prefix = aps@.subrange(0, i as int);
        assert(aps@.subrange(0, i + 1).drop_last() =~= prefix);
        assert(aps@.subrange(0, i + 1).last() == aps@[i as int]);
        let ap = &aps[i];
        if !ap.ssid.as_str().is_empty() {
            let net = WifiNetwork {
                ssid: ap.ssid.clone(),
                signal_strength: ap.strength,
                secured: ap.wpa_flags != 0 || ap.rsn_flags != 0,
                connected: false,
            };
            let mut pos: usize = 0;
            while pos < out.len() && out[pos].signal_strength >= net.signal_strength
                invariant
                    pos <= out.len(),
                    forall|k: int| 0 <= k < pos ==> (#[trigger] out@[k]).signal_strength >= net.signal_strength,
                decreases out.len() - pos,
            {
                pos += 1;
            }
            let ghost before = out@;
            let ghost gnet = net;
            out.insert(pos, net);
            proof {
                lemma_insert_at_first_weaker(before, gnet, pos as int);
                vstd::seq_lib::to_multiset_insert(before, pos as int, gnet);
                vstd::seq_lib::to_multiset_build(named_networks(prefix), gnet);
            }
            assert(out@ == before.insert(pos as int, net));
            assert(strongest_first(out@)) by {
                assert forall|a: int, b: int| 0 <= a < b < out@.len() implies
                    (#[trigger] out@[a]).signal_strength >= (#[trigger] out@[b]).signal_strength by {
                    if pos < before.len() {
                        assert(before[pos as int].signal_strength < net.signal_strength);
                    }
                    if a < pos && b > pos {
                        assert(before[a].signal_strength >= net.signal_strength);
                    }
                    if a == pos && b > pos {
                        assert(before[pos as int].signal_strength >= before[b - 1].signal_strength);
                    }
                };
            };
            assert(ap.ssid@.len() > 0);
            assert(network_of(aps@.subrange(0, i + 1).last()) == net);
            assert(named_networks(aps@.subrange(0, i + 1)) == named_networks(prefix).push(net));
            assert(named_networks(prefix).push(net).drop_last() =~= named_networks(prefix));
            assert(out@.to_multiset() == before.to_multiset().insert(net));
        } else {
            assert(named_networks(aps@.subrange(0, i + 1)) == named_networks(prefix));
        }
        i += 1;
    }
    assert(aps@.subrange(0, aps.len() as int) =~= aps@);
    out
}

/// Network control through the network daemon.
pub struct NetworkControl {
    link: LinkState,
    wifi_device_path: Option<String>,
    wifi_enabled: bool,
    events: Option<EventManager>,
}

impl NetworkControl {
    pub closed spec fn link(&self) -> LinkState {
        self.link
    }

    pub closed spec fn device(&self) -> Option<Seq<char>> {
        match self.wifi_device_path {
            Some(p) => Some(p@),
            None => None,
        }
    }

    pub closed spec fn wifi_enabled(&self) -> bool {
        self.wifi_enabled
    }

    pub closed spec fn published(&self) -> Option<Seq<Event>> {
        match self.events {
            Some(e) => Some(e.published()),
            None => None,
        }
    }

    pub fn new() -> (r: Self)
        ensures
            r.link() == LinkState::Unconnected,
            r.device() is None,
            !r.wifi_enabled(),
            r.published() == None::<Seq<Event>>,
    {
        NetworkControl { link: LinkState::Unconnected, wifi_device_path: None, wifi_enabled: false, events: None }
    }

    pub fn with_events(events: EventManager) -> (r: Self)
        ensures
            r.link() == LinkState::Unconnected,
            r.device() is None,
            !r.wifi_enabled(),
            r.published() == Some(events.published()),
    {
        NetworkControl {
            link: LinkState::Unconnected,
            wifi_device_path: None,
            wifi_enabled: false,
            events: Some(events),
        }
    }

    /// Start connecting to the system bus; true when a connection must be
    /// opened. While connected this changes nothing.
    pub fn begin_connect(&mut self) -> (open: bool)
        ensures
            open == (old(self).link() != LinkState::Connected),
            !open ==> *final(self) == *old(self),
            open ==> final(self).link() == LinkState::Connecting,
            final(self).device() == old(self).device(),
            final(self).wifi_enabled() == old(self).wifi_enabled(),
            final(self).published() == old(self).published(),
    {
        self.link.begin_connect()
    }

    /// Record whether the connection was opened.
    pub fn finish_connect(&mut self, outcome: Result<(), String>) -> (r: Result<(), AmiyaError>)
        ensures
            final(self).link() == (if outcome is Ok { LinkState::Connected } else { LinkState::Unconnected }),
            connect_result(outcome, r),
            final(self).device() == old(self).device(),
            final(self).wifi_enabled() == old(self).wifi_enabled(),
            final(self).published() == old(self).published(),
    {
        match outcome {
            Ok(_) => {
                self.link.finish_connect(true);
                Ok(())
            },
            Err(m) => {
                self.link.finish_connect(false);
                Err(connect_failure(m))
            },
        }
    }

    /// Record the wireless device found and its `WirelessEnabled` state; no
    /// device is an error.
    pub fn device_found(&mut self, path: Option<String>, enabled: bool) -> (r: Result<(), AmiyaError>)
        ensures
            r is Ok <==> path is Some,
            path is Some ==> final(self).device() == Some(path.unwrap()@) && final(self).wifi_enabled() == enabled,
            path is None ==> *final(self) == *old(self),
            final(self).link() == old(self).link(),
            final(self).published() == old(self).published(),
    {
        match path {
            Some(p) => {
                self.wifi_device_path = Some(p);
                self.wifi_enabled = enabled;
                Ok(())
            },
            None => Err(AmiyaError::Backend("No WiFi device available".to_owned())),
        }
    }

    /// An input/output failure on the live connection drops it; the cache
    /// stays as it was.
    pub fn connection_lost(&mut self)
        ensures
            final(self).link() == LinkState::Unconnected,
            final(self).device() == old(self).device(),
            final(self).wifi_enabled() == old(self).wifi_enabled(),
            final(self).published() == old(self).published(),
    {
        self.link.connection_lost();
    }

    /// True when connected and a wireless device was found.
    pub fn is_available(&self) -> (r: bool)
        ensures
            r == (self.link() == LinkState::Connected && self.device() is Some),
    {
        self.link.is_connected() && self.wifi_device_path.is_some()
    }

    pub fn is_wifi_enabled(&self) -> (r: Result<bool, AmiyaError>)
        ensures
            r == Ok::<bool, AmiyaError>(self.wifi_enabled()),
    {
        Ok(self.wifi_enabled)
    }

    /// Refused while not connected.
    pub fn require_connection(&self) -> (r: Result<(), AmiyaError>)
        ensures
            r is Ok <==> self.link() == LinkState::Connected,
    {
        if self.link.is_connected() {
            Ok(())
        } else {
            Err(AmiyaError::Backend("Not connected to D-Bus".to_owned()))
        }
    }

    /// The wireless device to call, or why there is none.
    pub fn require_device(&self) -> (r: Result<&String, AmiyaError>)
        ensures
            match r {
                Ok(p) => self.link() == LinkState::Connected && self.device() == Some(p@),
                Err(_) => !(self.link() == LinkState::Connected && self.device() is Some),
            },
    {
        if !self.link.is_connected() {
            return Err(AmiyaError::Backend("Not connected to D-Bus".to_owned()));
        }
        match &self.wifi_device_path {
            Some(p) => Ok(p),
            None => Err(AmiyaError::Backend("No WiFi device available".to_owned())),
        }
    }

    /// Record that the daemon accepted a new `WirelessEnabled` value, and
    /// publish one `WifiStateChanged` event.
    pub fn apply_wifi_enabled(&mut self, enabled: bool)
        ensures
            final(self).wifi_enabled() == enabled,
            final(self).published() == record_after(old(self).published(), Event::WifiStateChanged { enabled }),
            final(self).device() == old(self).device(),
            final(self).link() == old(self).link(),
    {
        self.wifi_enabled = enabled;
        match &mut self.events {
            Some(events) => events.emit(Event::WifiStateChanged { enabled }),
            None => {},
        }
    }

    /// Turn a scan's access points into the network list, publish it in one
    /// `WifiNetworksUpdated` event, and return it; refused, with nothing
    /// changed and nothing published, while not connected or with no
    /// wireless device.
    pub fn get_networks(&mut self, aps: &Vec<AccessPoint>) -> (r: Result<Vec<WifiNetwork>, AmiyaError>)
        ensures
            r is Ok <==> (old(self).link() == LinkState::Connected && old(self).device() is Some),
            r is Err ==> *final(self) == *old(self) && r->Err_0 is Backend,
            r matches Ok(v) ==> {
                &&& v@ == by_strength(named_networks(aps@))
                &&& strongest_first(v@)
                &&& v@.to_multiset() == named_networks(aps@).to_multiset()
                &&& exists|e: Event| lists_networks(e, v@) && final(self).published() == record_after(old(self).published(), e)
            },
            final(self).device() == old(self).device(),
            final(self).wifi_enabled() == old(self).wifi_enabled(),
            final(self).link() == old(self).link(),
    {
        if !self.link.is_connected() {
            return Err(AmiyaError::Backend("Not connected to D-Bus".to_owned()));
        }
        if self.wifi_device_path.is_none() {
            return Err(AmiyaError::Backend("No WiFi device available".to_owned()));
        }
        let networks = scan_results(aps);
        let copy = networks.clone();
        assert(copy@ =~= networks@);
        let ev = Event::WifiNetworksUpdated { networks: copy };
        assert(lists_networks(ev, networks@));
        match &mut self.events {
            Some(events) => events.emit(ev),
            None => {},
        }
        Ok(networks)
    }

    /// Ask to join a network: publishes one `WifiNetworkConnected` event;
    /// refused while not connected.
    pub fn connect(&mut self, ssid: &str, password: Option<&str>) -> (r: Result<(), AmiyaError>)
        ensures
            r is Ok <==> old(self).link() == LinkState::Connected,
            r is Ok ==> exists|e: Event| joins(e, ssid@) && final(self).published() == record_after(old(self).published(), e),
            r is Err ==> *final(self) == *old(self),
            final(self).device() == old(self).device(),
            final(self).wifi_enabled() == old(self).wifi_enabled(),
            final(self).link() == old(self).link(),
    {
        if !self.link.is_connected() {
            return Err(AmiyaError::Backend("Not connected to D-Bus".to_owned()));
        }
        let ev = Event::WifiNetworkConnected { ssid: ssid.to_owned() };
        assert(joins(ev, ssid@));
        match &mut self.events {
            Some(events) => events.emit(ev),
            None => {},
        }
        Ok(())
    }

    /// Leave the current network: publishes one `WifiNetworkDisconnected`.
    pub fn disconnect(&mut self) -> (r: Result<(), AmiyaError>)
        ensures
            r is Ok,
            final(self).published() == record_after(old(self).published(), Event::WifiNetworkDisconnected),
            final(self).device() == old(self).device(),
            final(self).wifi_enabled() == old(self).wifi_enabled(),
            final(self).link() == old(self).link(),
    {
        match &mut self.events {
            Some(events) => events.emit(Event::WifiNetworkDisconnected),
            None => {},
        }
        Ok(())
    }
}

impl Default for NetworkControl {
    fn default() -> (r: Self)
        ensures
            r.link() == LinkState::Unconnected,
            r.device() is None,
            r.published() == None::<Seq<Event>>,
    {
        NetworkControl::new()
    }
}

} // verus!
