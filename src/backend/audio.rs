use vstd::prelude::*;
use crate::backend::level::{clamp_level, clamp_percent, lower_level, offset_level};
use crate::backend::link::{connect_failure, connect_result, LinkState};
use crate::error::AmiyaError;
use crate::events::{record_after, Event, EventManager};

verus! {

/// Level the audio cache starts at.
pub const INITIAL_VOLUME: u32 = 50;

/// Audio control: cached volume and mute state of the sound server.
pub struct AudioControl {
    link: LinkState,
    current_volume: u32,
    current_mute: bool,
    events: Option<EventManager>,
}

impl AudioControl {
    /// Cached volume, whole percent.
    pub closed spec fn volume(&self) -> int {
        self.current_volume as int
    }

    pub closed spec fn muted(&self) -> bool {
        self.current_mute
    }

    pub closed spec fn link(&self) -> LinkState {
        self.link
    }

    /// Events published by this adapter, if it has a bus.
    pub closed spec fn published(&self) -> Option<Seq<Event>> {
        match self.events {
            Some(e) => Some(e.published()),
            None => None,
        }
    }

    pub closed spec fn wf(&self) -> bool {
        self.current_volume <= 100
    }

    /// A well-formed control's level lies within [0, 100].
    pub proof fn lemma_level_in_range(&self)
        requires
            self.wf(),
        ensures
            0 <= self.volume() <= 100,
    {
    }

    /// The event that describes the cache.
    pub open spec fn state_event(&self) -> Event {
        Event::VolumeChanged { level: self.volume() as u32, muted: self.muted() }
    }

    /// An adapter without a bus.
    pub fn new() -> (r: Self)
        ensures
            r.wf(),
            r.volume() == INITIAL_VOLUME,
            !r.muted(),
            r.link() == LinkState::Unconnected,
            r.published() == None::<Seq<Event>>,
    {
        AudioControl {
            link: LinkState::Unconnected,
            current_volume: INITIAL_VOLUME,
            current_mute: false,
            events: None,
        }
    }

    /// An adapter that publishes on the given bus.
    pub fn with_events(events: EventManager) -> (r: Self)
        ensures
            r.wf(),
            r.volume() == INITIAL_VOLUME,
            !r.muted(),
            r.link() == LinkState::Unconnected,
            r.published() == Some(events.published()),
    {
        AudioControl {
            link: LinkState::Unconnected,
            current_volume: INITIAL_VOLUME,
            current_mute: false,
            events: Some(events),
        }
    }

    /// Start connecting to the sound server; true when a session must be
    /// opened. While connected this changes nothing.
    pub fn connect(&mut self) -> (open: bool)
        ensures
            open == (old(self).link() != LinkState::Connected),
            !open ==> *final(self) == *old(self),
            open ==> final(self).link() == LinkState::Connecting,
            final(self).wf() == old(self).wf(),
            final(self).volume() == old(self).volume(),
            final(self).muted() == old(self).muted(),
            final(self).published() == old(self).published(),
    {
        self.link.begin_connect()
    }

    /// Record whether the session was opened; a failure leaves the cache
    /// intact and reports a backend error carrying the reason.
    pub fn finish_connect(&mut self, outcome: Result<(), String>) -> (r: Result<(), AmiyaError>)
        ensures
            final(self).link() == (if outcome is Ok { LinkState::Connected } else { LinkState::Unconnected }),
            connect_result(outcome, r),
            final(self).wf() == old(self).wf(),
            final(self).volume() == old(self).volume(),
            final(self).muted() == old(self).muted(),
            final(self).published() == old(self).published(),
    {
        match outcome {
            Ok(_) => {
                self.link.finish_connect(true);
                Ok(())
            },
            Err(m) => {
                self.link.finish_connect(false);
                Err(connect_failure(m))
            },
        }
    }

    /// An input/output failure on the live connection drops it; the cache
    /// stays as it was.
    pub fn connection_lost(&mut self)
        ensures
            final(self).link() == LinkState::Unconnected,
            final(self).volume() == old(self).volume(),
            final(self).muted() == old(self).muted(),
            final(self).published() == old(self).published(),
    {
        self.link.connection_lost();
    }

    /// True only while a session is live.
    pub fn is_available(&self) -> (r: bool)
        ensures
            r == (self.link() == LinkState::Connected),
    {
        self.link.is_connected()
    }

    /// Cached volume, whole percent; never fails.
    pub fn get_volume(&self) -> (r: Result<u32, AmiyaError>)
        ensures
            r == Ok::<u32, AmiyaError>(self.volume() as u32),
    {
        Ok(self.current_volume)
    }

    /// Cached mute state; never fails.
    pub fn get_mute(&self) -> (r: Result<bool, AmiyaError>)
        ensures
            r == Ok::<bool, AmiyaError>(self.muted()),
    {
        Ok(self.current_mute)
    }

    fn publish_state(&mut self)
        ensures
            final(self).published() == record_after(old(self).published(), old(self).state_event()),
            final(self).volume() == old(self).volume(),
            final(self).muted() == old(self).muted(),
            final(self).link() == old(self).link(),
            final(self).wf() == old(self).wf(),
    {
        let ev = Event::VolumeChanged { level: self.current_volume, muted: self.current_mute };
        match &mut self.events {
            Some(events) => events.emit(ev),
            None => {},
        }
    }

    /// Set the volume to `volume` clamped to [0, 100], and publish one
    /// `VolumeChanged` event with the new state.
    pub fn set_volume(&mut self, volume: i64) -> (r: Result<(), AmiyaError>)
        requires
            old(self).wf(),
        ensures
            r is Ok,
            final(self).wf(),
            final(self).volume() == clamp_percent(volume as int),
            final(self).muted() == old(self).muted(),
            final(self).link() == old(self).link(),
            final(self).published() == record_after(old(self).published(), final(self).state_event()),
    {
        self.current_volume = clamp_level(volume);
        self.publish_state();
        Ok(())
    }

    /// Raise the volume by `step`, clamped to [0, 100].
    pub fn increase_volume(&mut self, step: i64) -> (r: Result<(), AmiyaError>)
        requires
            old(self).wf(),
        ensures
            r is Ok,
            final(self).wf(),
            final(self).volume() == clamp_percent(old(self).volume() + step),
            final(self).muted() == old(self).muted(),
            final(self).link() == old(self).link(),
            final(self).published() == record_after(old(self).published(), final(self).state_event()),
    {
        self.current_volume = offset_level(self.current_volume, step);
        self.publish_state();
        Ok(())
    }

    /// Lower the volume by `step`, clamped to [0, 100].
    pub fn decrease_volume(&mut self, step: i64) -> (r: Result<(), AmiyaError>)
        requires
            old(self).wf(),
        ensures
            r is Ok,
            final(self).wf(),
            final(self).volume() == clamp_percent(old(self).volume() - step),
            final(self).muted() == old(self).muted(),
            final(self).link() == old(self).link(),
            final(self).published() == record_after(old(self).published(), final(self).state_event()),
    {
        self.current_volume = lower_level(self.current_volume, step);
        self.publish_state();
        Ok(())
    }

    /// Set the mute state and publish one `VolumeChanged` event.
    pub fn set_mute(&mut self, muted: bool) -> (r: Result<(), AmiyaError>)
        ensures
            r is Ok,
            final(self).wf() == old(self).wf(),
            final(self).volume() == old(self).volume(),
            final(self).muted() == muted,
            final(self).link() == old(self).link(),
            final(self).published() == record_after(old(self).published(), final(self).state_event()),
    {
        self.current_mute = muted;
        self.publish_state();
        Ok(())
    }

    /// Flip the mute state and publish one `VolumeChanged` event.
    pub fn toggle_mute(&mut self) -> (r: Result<(), AmiyaError>)
        ensures
            r is Ok,
            final(self).wf() == old(self).wf(),
            final(self).volume() == old(self).volume(),
            final(self).muted() == !old(self).muted(),
            final(self).link() == old(self).link(),
            final(self).published() == record_after(old(self).published(), final(self).state_event()),
    {
        let current = self.current_mute;
        self.set_mute(!current)
    }
}

impl Default for AudioControl {
    fn default() -> (r: Self)
        ensures
            r.wf(),
            r.volume() == INITIAL_VOLUME,
            !r.muted(),
            r.link() == LinkState::Unconnected,
            r.published() == None::<Seq<Event>>,
    {
        AudioControl::new()
    }
}

} // verus!
