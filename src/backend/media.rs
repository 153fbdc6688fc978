use vstd::prelude::*;
use crate::backend::level::{clamp_level, clamp_percent};
use crate::backend::link::{connect_failure, connect_result, LinkState};
use crate::backend::strings::str_eq;
use crate::error::AmiyaError;
use crate::events::{record_after, Event, EventManager};

verus! {

/// Bus name prefix of media players.
pub open spec fn mpris_prefix() -> Seq<char> {
    "org.mpris.MediaPlayer2."@
}

/// A media player on the session bus.
#[derive(Debug, PartialEq, Eq)]
pub struct MediaPlayer {
    pub name: String,
    pub bus_name: String,
    pub identity: String,
}

impl Clone for MediaPlayer {
    fn clone(&self) -> (r: Self)
        ensures
            r == *self,
    {
        MediaPlayer { name: self.name.clone(), bus_name: self.bus_name.clone(), identity: self.identity.clone() }
    }
}

/// Metadata of the current track.
#[derive(Debug, PartialEq, Eq)]
pub struct TrackMetadata {
    pub title: String,
    pub artist: String,
    pub album: Option<String>,
    pub art_url: Option<String>,
    pub track_id: Option<String>,
}

fn copy_opt(s: &Option<String>) -> (r: Option<String>)
    ensures
        r == *s,
{
    match s {
        Some(v) => Some(v.clone()),
        None => None,
    }
}

impl Clone for TrackMetadata {
    fn clone(&self) -> (r: Self)
        ensures
            r == *self,
    {
        TrackMetadata {
            title: self.title.clone(),
            artist: self.artist.clone(),
            album: copy_opt(&self.album),
            art_url: copy_opt(&self.art_url),
            track_id: copy_opt(&self.track_id),
        }
    }
}

/// Playback status of the active player.
#[derive(Debug, Clone, Copy, PartialEq, Eq, Structural)]
pub enum PlaybackStatus {
    Playing,
    Paused,
    Stopped,
}

/// The status a player reports by name; anything unknown counts as stopped.
pub open spec fn status_of(s: Seq<char>) -> PlaybackStatus {
    if s == "Playing"@ {
        PlaybackStatus::Playing
    } else if s == "Paused"@ {
        PlaybackStatus::Paused
    } else {
        PlaybackStatus::Stopped
    }
}

pub fn parse_playback_status(s: &str) -> (r: PlaybackStatus)
    ensures
        r == status_of(s@),
{
    if str_eq(s, "Playing") {
        PlaybackStatus::Playing
    } else if str_eq(s, "Paused") {
        PlaybackStatus::Paused
    } else {
        PlaybackStatus::Stopped
    }
}

/// A field of the metadata, or "Unknown" when the player gave none.
pub open spec fn or_unknown(f: Option<String>) -> Seq<char> {
    match f {
        Some(s) => s@,
        None => "Unknown"@,
    }
}

/// Track metadata from the fields a player reported; a missing title or
/// artist reads "Unknown".
pub fn track_from_fields(
    title: Option<String>,
    artist: Option<String>,
    album: Option<String>,
    art_url: Option<String>,
    track_id: Option<String>,
) -> (r: TrackMetadata)
    ensures
        r.title@ == or_unknown(title),
        r.artist@ == or_unknown(artist),
        r.album == album,
        r.art_url == art_url,
        r.track_id == track_id,
{
    proof {
        reveal_strlit("Unknown");
    }
    let title = match title {
        Some(t) => t,
        None => "Unknown".to_owned(),
    };
    let artist = match artist {
        Some(a) => a,
        None => "Unknown".to_owned(),
    };
    TrackMetadata { title, artist, album, art_url, track_id }
}

/// Whether a bus name is a media player's: it starts with the prefix.
pub open spec fn is_mpris(bus_name: Seq<char>) -> bool {
    bus_name.len() >= mpris_prefix().len() && bus_name.subrange(0, mpris_prefix().len() as int) == mpris_prefix()
}

pub fn is_mpris_name(bus_name: &str) -> (r: bool)
    ensures
        r == is_mpris(bus_name@),
{
    let prefix = "org.mpris.MediaPlayer2.";
    proof {
        reveal_strlit("org.mpris.MediaPlayer2.");
    }
    let n = bus_name.unicode_len();
    let k = prefix.unicode_len();
    n >= k && str_eq(bus_name.substring_char(0, k), prefix)
}

/// The player behind a bus name, if the name is a media player's: its short
/// name is the bus name without the prefix.
pub fn mpris_player(bus_name: &str, identity: String) -> (r: Option<MediaPlayer>)
    ensures
        match r {
            Some(p) => {
                &&& bus_name@.len() >= mpris_prefix().len()
                &&& bus_name@.subrange(0, mpris_prefix().len() as int) == mpris_prefix()
                &&& p.bus_name@ == bus_name@
                &&& p.name@ == bus_name@.subrange(mpris_prefix().len() as int, bus_name@.len() as int)
                &&& p.identity == identity
            },
            None => !(bus_name@.len() >= mpris_prefix().len()
                && bus_name@.subrange(0, mpris_prefix().len() as int) == mpris_prefix()),
        },
{
    let prefix = "org.mpris.MediaPlayer2.";
    proof {
        reveal_strlit("org.mpris.MediaPlayer2.");
    }
    let n = bus_name.unicode_len();
    let k = prefix.unicode_len();
    if n < k {
        return None;
    }
    let head = bus_name.substring_char(0, k);
    if !str_eq(head, prefix) {
        return None;
    }
    let tail = bus_name.substring_char(k, n);
    Some(MediaPlayer { name: tail.to_owned(), bus_name: bus_name.to_owned(), identity })
}

/// A player seen as its short name, bus name and identity.
pub open spec fn player_view(p: MediaPlayer) -> (Seq<char>, Seq<char>, Seq<char>) {
    (p.name@, p.bus_name@, p.identity@)
}

/// The identity read for the `i`-th bus name, if one was read.
pub open spec fn identity_at(ids: Seq<Option<String>>, i: int) -> Option<String> {
    if 0 <= i < ids.len() {
        ids[i]
    } else {
        None
    }
}

/// The players among the first `n` bus names, in order: each name that is a
/// media player's and whose identity was read.
pub open spec fn players_of(names: Seq<String>, ids: Seq<Option<String>>, n: int) -> Seq<(Seq<char>, Seq<char>, Seq<char>)>
    decreases n,
{
    if n <= 0 {
        Seq::empty()
    } else {
        let rest = players_of(names, ids, n - 1);
        let b = names[n - 1]@;
        match identity_at(ids, n - 1) {
            Some(id) => if is_mpris(b) {
                rest.push((b.subrange(mpris_prefix().len() as int, b.len() as int), b, id@))
            } else {
                rest
            },
            None => rest,
        }
    }
}

/// The players among the bus names on the session bus, in bus order: each
/// name that is a media player's and whose identity could be read
/// (`identities[i]` is the identity of `names[i]`, `None` when the read
/// failed or was not made).
pub fn players_from(names: &Vec<String>, identities: &Vec<Option<String>>) -> (r: Vec<MediaPlayer>)
    ensures
        r@.map_values(|p: MediaPlayer| player_view(p)) == players_of(names@, identities@, names@.len() as int),
{
    let mut out: Vec<MediaPlayer> = Vec::new();
    let mut i: usize = 0;
    while i < names.len()
        invariant
            i <= names.len(),
            out@.map_values(|p: MediaPlayer| player_view(p)) == players_of(names@, identities@, i as int),
        decreases names.len() - i,
    {
        let ghost before = out@;
        let id = if i < identities.len() {
            match &identities[i] {
                Some(v) => Some(v.clone()),
                None => None,
            }
        } else {
            None
        };
        assert(id == identity_at(identities@, i as int));
        match id {
            Some(identity) => {
                match mpris_player(names[i].as_str(), identity) {
                    Some(p) => {
                        out.push(p);
                        assert(out@.map_values(|p: MediaPlayer| player_view(p)) =~= before.map_values(
                            |p: MediaPlayer| player_view(p),
                        ).push(player_view(p)));
                    },
                    None => {},
                }
            },
            None => {},
        }
        i += 1;
    }
    out
}

/// Whether `players` holds one with the bus name `b`.
pub open spec fn has_player(players: Seq<MediaPlayer>, b: Seq<char>) -> bool {
    exists|i: int| 0 <= i < players.len() && (#[trigger] players[i]).bus_name@ == b
}

fn find_player(players: &Vec<MediaPlayer>, bus_name: &str) -> (r: bool)
    ensures
        r == has_player(players@, bus_name@),
{
    let mut i: usize = 0;
    while i < players.len()
        invariant
            i <= players.len(),
            forall|j: int| 0 <= j < i ==> (#[trigger] players@[j]).bus_name@ != bus_name@,
        decreases players.len() - i,
    {
        if str_eq(players[i].bus_name.as_str(), bus_name) {
            return true;
        }
        i += 1;
    }
    false
}

/// `e` announces `player` as the active player.
pub open spec fn announces_player(e: Event, player: Seq<char>) -> bool {
    e matches Event::MediaPlayerChanged { player: Some(p) } && p@ == player
}

/// `after` is `before` with one event announcing `player` as active.
pub open spec fn player_announced(before: Option<Seq<Event>>, after: Option<Seq<Event>>, player: Seq<char>) -> bool {
    exists|e: Event| announces_player(e, player) && after == record_after(before, e)
}

/// `e` announces the track `t`.
pub open spec fn announces_track(e: Event, t: TrackMetadata) -> bool {
    e matches Event::MediaTrackChanged { title, artist, album } && title == t.title && artist == t.artist
        && album == t.album
}

/// Media control through the media player interface of the session bus.
pub struct MediaControl {
    link: LinkState,
    active_player: Option<String>,
    players: Vec<MediaPlayer>,
    playback_status: PlaybackStatus,
    current_track: Option<TrackMetadata>,
    volume: u32,
    events: Option<EventManager>,
}

impl MediaControl {
    pub closed spec fn link(&self) -> LinkState {
        self.link
    }

    pub closed spec fn active(&self) -> Option<Seq<char>> {
        match self.active_player {
            Some(p) => Some(p@),
            None => None,
        }
    }

    pub closed spec fn players(&self) -> Seq<MediaPlayer> {
        self.players@
    }

    pub closed spec fn status(&self) -> PlaybackStatus {
        self.playback_status
    }

    pub closed spec fn track(&self) -> Option<TrackMetadata> {
        self.current_track
    }

    /// Player volume, whole percent of full volume.
    pub closed spec fn volume(&self) -> int {
        self.volume as int
    }

    pub closed spec fn published(&self) -> Option<Seq<Event>> {
        match self.events {
            Some(e) => Some(e.published()),
            None => None,
        }
    }

    pub fn new() -> (r: Self)
        ensures
            r.link() == LinkState::Unconnected,
            r.active() is None,
            r.players() == Seq::<MediaPlayer>::empty(),
            r.status() == PlaybackStatus::Stopped,
            r.track() is None,
            r.volume() == 100,
            r.published() == None::<Seq<Event>>,
    {
        MediaControl {
            link: LinkState::Unconnected,
            active_player: None,
            players: Vec::new(),
            playback_status: PlaybackStatus::Stopped,
            current_track: None,
            volume: 100,
            events: None,
        }
    }

    pub fn with_events(events: EventManager) -> (r: Self)
        ensures
            r.link() == LinkState::Unconnected,
            r.active() is None,
            r.players() == Seq::<MediaPlayer>::empty(),
            r.status() == PlaybackStatus::Stopped,
            r.track() is None,
            r.volume() == 100,
            r.published() == Some(events.published()),
    {
        MediaControl {
            link: LinkState::Unconnected,
            active_player: None,
            players: Vec::new(),
            playback_status: PlaybackStatus::Stopped,
            current_track: None,
            volume: 100,
            events: Some(events),
        }
    }

    /// Start connecting to the session bus; true when a connection must be
    /// opened. While connected this changes nothing.
    pub fn connect(&mut self) -> (open: bool)
        ensures
            open == (old(self).link() != LinkState::Connected),
            !open ==> *final(self) == *old(self),
            open ==> final(self).link() == LinkState::Connecting,
            final(self).active() == old(self).active(),
            final(self).players() == old(self).players(),
            final(self).status() == old(self).status(),
            final(self).track() == old(self).track(),
            final(self).volume() == old(self).volume(),
            final(self).published() == old(self).published(),
    {
        self.link.begin_connect()
    }

    /// Record whether the connection was opened.
    pub fn finish_connect(&mut self, outcome: Result<(), String>) -> (r: Result<(), AmiyaError>)
        ensures
            final(self).link() == (if outcome is Ok { LinkState::Connected } else { LinkState::Unconnected }),
            connect_result(outcome, r),
            final(self).active() == old(self).active(),
            final(self).players() == old(self).players(),
            final(self).status() == old(self).status(),
            final(self).track() == old(self).track(),
            final(self).volume() == old(self).volume(),
            final(self).published() == old(self).published(),
    {
        match outcome {
            Ok(_) => {
                self.link.finish_connect(true);
                Ok(())
            },
            Err(m) => {
                self.link.finish_connect(false);
                Err(connect_failure(m))
            },
        }
    }

    /// Record the players found on the bus. With no active player yet, the
    /// first one becomes active. When a player is active, one
    /// `MediaPlayerChanged` event names it.
    pub fn set_players(&mut self, players: Vec<MediaPlayer>)
        ensures
            final(self).players() == players@,
            final(self).active() == (if old(self).active() is None && players.len() > 0 {
                Some(players@[0].bus_name@)
            } else {
                old(self).active()
            }),
            match final(self).active() {
                Some(a) => player_announced(old(self).published(), final(self).published(), a),
                None => final(self).published() == old(self).published(),
            },
            final(self).link() == old(self).link(),
            final(self).status() == old(self).status(),
            final(self).track() == old(self).track(),
            final(self).volume() == old(self).volume(),
    {
        if self.active_player.is_none() && players.len() > 0 {
            self.active_player = Some(players[0].bus_name.clone());
        }
        self.players = players;
        let ghost mid = self.published();
        assert(mid == old(self).published());
        match copy_opt(&self.active_player) {
            Some(a) => {
                let ev = Event::MediaPlayerChanged { player: Some(a) };
                let ghost gev = ev;
                assert(announces_player(gev, a@));
                match &mut self.events {
                    Some(events) => events.emit(ev),
                    None => {},
                }
                assert(self.published() == record_after(mid, gev));
                assert(self.active() == Some(a@));
                assert(player_announced(old(self).published(), self.published(), a@));
            },
            None => {},
        }
    }

    /// Record the players found among the session bus names (see
    /// `players_from`); with no active player yet, the first becomes active,
    /// and one `MediaPlayerChanged` names the active player if there is one.
    pub fn discover_players(&mut self, names: &Vec<String>, identities: &Vec<Option<String>>)
        ensures
            final(self).players().map_values(|p: MediaPlayer| player_view(p)) == players_of(
                names@,
                identities@,
                names@.len() as int,
            ),
            final(self).active() == (if old(self).active() is None && final(self).players().len() > 0 {
                Some(final(self).players()[0].bus_name@)
            } else {
                old(self).active()
            }),
            match final(self).active() {
                Some(a) => player_announced(old(self).published(), final(self).published(), a),
                None => final(self).published() == old(self).published(),
            },
            final(self).link() == old(self).link(),
            final(self).status() == old(self).status(),
            final(self).track() == old(self).track(),
            final(self).volume() == old(self).volume(),
    {
        let players = players_from(names, identities);
        self.set_players(players);
    }

    /// Take the active player's state: its status (published as one
    /// `MediaPlaybackChanged`), its track if it gave one (published as one
    /// `MediaTrackChanged`), and the volume it reports, in whole percent of
    /// full volume, kept as reported (players may report above full).
    pub fn apply_player_state(&mut self, status: &str, track: Option<TrackMetadata>, volume: u32)
        ensures
            final(self).status() == status_of(status@),
            final(self).volume() == volume,
            final(self).track() == (match track {
                Some(t) => Some(t),
                None => old(self).track(),
            }),
            match (old(self).published(), final(self).published()) {
                (Some(b), Some(a)) => match track {
                    Some(t) => a.len() == b.len() + 2 && a.subrange(0, b.len() as int) == b
                        && a[b.len() as int] == (Event::MediaPlaybackChanged { playing: status_of(status@) == PlaybackStatus::Playing })
                        && announces_track(a[b.len() + 1 as int], t),
                    None => a == b.push(Event::MediaPlaybackChanged { playing: status_of(status@) == PlaybackStatus::Playing }),
                },
                (None, None) => true,
                _ => false,
            },
            final(self).link() == old(self).link(),
            final(self).active() == old(self).active(),
            final(self).players() == old(self).players(),
    {
        let s = parse_playback_status(status);
        self.playback_status = s;
        let playing = s == PlaybackStatus::Playing;
        match &mut self.events {
            Some(events) => events.emit(Event::MediaPlaybackChanged { playing }),
            None => {},
        }
        match track {
            Some(t) => {
                let ev = Event::MediaTrackChanged {
                    title: t.title.clone(),
                    artist: t.artist.clone(),
                    album: copy_opt(&t.album),
                };
                assert(announces_track(ev, t));
                match &mut self.events {
                    Some(events) => events.emit(ev),
                    None => {},
                }
                self.current_track = Some(t);
            },
            None => {},
        }
        self.volume = volume;
    }

    /// An input/output failure on the live connection drops it; the cache
    /// stays as it was.
    pub fn connection_lost(&mut self)
        ensures
            final(self).link() == LinkState::Unconnected,
            final(self).active() == old(self).active(),
            final(self).players() == old(self).players(),
            final(self).status() == old(self).status(),
            final(self).track() == old(self).track(),
            final(self).volume() == old(self).volume(),
            final(self).published() == old(self).published(),
    {
        self.link.connection_lost();
    }

    /// True when connected and a player is active.
    pub fn is_available(&self) -> (r: bool)
        ensures
            r == (self.link() == LinkState::Connected && self.active() is Some),
    {
        self.link.is_connected() && self.active_player.is_some()
    }

    pub fn get_players(&self) -> (r: Result<Vec<MediaPlayer>, AmiyaError>)
        ensures
            r matches Ok(v) && v@ == self.players(),
    {
        let v = self.players.clone();
        assert(v@ =~= self.players@);
        Ok(v)
    }

    pub fn get_active_player(&self) -> (r: Option<String>)
        ensures
            match r {
                Some(p) => self.active() == Some(p@),
                None => self.active() is None,
            },
    {
        copy_opt(&self.active_player)
    }

    /// The active player to call, or why there is none.
    pub fn call_target(&self) -> (r: Result<&String, AmiyaError>)
        ensures
            match r {
                Ok(p) => self.link() == LinkState::Connected && self.active() == Some(p@),
                Err(_) => !(self.link() == LinkState::Connected && self.active() is Some),
            },
    {
        if !self.link.is_connected() {
            return Err(AmiyaError::Backend("Not connected to D-Bus".to_owned()));
        }
        match &self.active_player {
            Some(p) => Ok(p),
            None => Err(AmiyaError::Backend("No active player".to_owned())),
        }
    }

    /// Make a known player active and publish one `MediaPlayerChanged`;
    /// refused while not connected or for an unknown player.
    pub fn set_active_player(&mut self, bus_name: &str) -> (r: Result<(), AmiyaError>)
        ensures
            r is Ok <==> (old(self).link() == LinkState::Connected && has_player(old(self).players(), bus_name@)),
            r is Ok ==> final(self).active() == Some(bus_name@) && exists|e: Event| announces_player(e, bus_name@)
                && final(self).published() == record_after(old(self).published(), e),
            r is Err ==> *final(self) == *old(self) && r->Err_0 is Backend,
            final(self).link() == old(self).link(),
            final(self).players() == old(self).players(),
    {
        if !self.link.is_connected() {
            return Err(AmiyaError::Backend("Not connected to D-Bus".to_owned()));
        }
        if !find_player(&self.players, bus_name) {
            return Err(AmiyaError::Backend("Player not found: ".to_owned().concat(bus_name)));
        }
        self.active_player = Some(bus_name.to_owned());
        let ev = Event::MediaPlayerChanged { player: Some(bus_name.to_owned()) };
        assert(announces_player(ev, bus_name@));
        match &mut self.events {
            Some(events) => events.emit(ev),
            None => {},
        }
        Ok(())
    }

    pub fn get_playback_status(&self) -> (r: PlaybackStatus)
        ensures
            r == self.status(),
    {
        self.playback_status
    }

    pub fn get_metadata(&self) -> (r: Option<TrackMetadata>)
        ensures
            r == self.track(),
    {
        match &self.current_track {
            Some(t) => Some(t.clone()),
            None => None,
        }
    }

    /// Player volume, whole percent.
    pub fn get_volume(&self) -> (r: u32)
        ensures
            r == self.volume(),
    {
        self.volume
    }

    /// The volume to write to the active player: `volume` clamped to
    /// [0, 100]; refused while not connected or with no active player.
    pub fn set_volume(&self, volume: i64) -> (r: Result<u32, AmiyaError>)
        ensures
            match r {
                Ok(v) => self.link() == LinkState::Connected && self.active() is Some && v == clamp_percent(volume as int),
                Err(_) => !(self.link() == LinkState::Connected && self.active() is Some),
            },
    {
        match self.call_target() {
            Ok(_) => Ok(clamp_level(volume)),
            Err(e) => Err(e),
        }
    }

    /// Record that the player accepted a volume, and publish one
    /// `MediaVolumeChanged`.
    pub fn apply_volume(&mut self, volume: u32)
        requires
            volume <= 100,
        ensures
            final(self).volume() == volume,
            final(self).published() == record_after(old(self).published(), Event::MediaVolumeChanged { volume }),
            final(self).link() == old(self).link(),
            final(self).active() == old(self).active(),
            final(self).players() == old(self).players(),
            final(self).status() == old(self).status(),
            final(self).track() == old(self).track(),
    {
        self.volume = volume;
        match &mut self.events {
            Some(events) => events.emit(Event::MediaVolumeChanged { volume }),
            None => {},
        }
    }
}

impl Default for MediaControl {
    fn default() -> (r: Self)
        ensures
            r.link() == LinkState::Unconnected,
            r.published() == None::<Seq<Event>>,
    {
        MediaControl::new()
    }
}

} // verus!
