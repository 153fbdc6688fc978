use vstd::prelude::*;
use crate::backend::strings::str_eq;
use crate::backend::level::{clamp_level, clamp_percent, lower_level, offset_level};
use crate::error::AmiyaError;
use crate::events::{record_after, Event, EventManager};

verus! {

/// Level the backlight cache starts at.
pub const INITIAL_BRIGHTNESS: u32 = 50;

/// Device names tried first, in this order, under the backlight class
/// directory.
pub open spec fn preferred_devices() -> Seq<Seq<char>> {
    seq!["intel_backlight"@, "amdgpu_bl0"@, "radeon_bl0"@, "acpi_video0"@]
}

/// Whether `entries` holds a name equal to `name`.
pub open spec fn lists(entries: Seq<String>, name: Seq<char>) -> bool {
    exists|i: int| 0 <= i < entries.len() && #[trigger] entries[i]@ == name
}

/// The device chosen among directory entries: the first preferred name that
/// is present, else the first entry, else none.
pub open spec fn chosen_device(entries: Seq<String>) -> Option<Seq<char>> {
    if lists(entries, preferred_devices()[0]) {
        Some(preferred_devices()[0])
    } else if lists(entries, preferred_devices()[1]) {
        Some(preferred_devices()[1])
    } else if lists(entries, preferred_devices()[2]) {
        Some(preferred_devices()[2])
    } else if lists(entries, preferred_devices()[3]) {
        Some(preferred_devices()[3])
    } else if entries.len() > 0 {
        Some(entries[0]@)
    } else {
        None
    }
}

fn find_entry(entries: &Vec<String>, name: &str) -> (r: bool)
    ensures
        r == lists(entries@, name@),
{
    let mut i: usize = 0;
    while i < entries.len()
        invariant
            i <= entries.len(),
            forall|j: int| 0 <= j < i ==> #[trigger] entries@[j]@ != name@,
        decreases entries.len() - i,
    {
        if str_eq(entries[i].as_str(), name) {
            return true;
        }
        i += 1;
    }
    false
}

/// Choose the backlight device among the names found in the backlight class
/// directory.
pub fn pick_backlight_device(entries: &Vec<String>) -> (r: Option<String>)
    ensures
        match r {
            Some(s) => chosen_device(entries@) == Some(s@),
            None => chosen_device(entries@) is None,
        },
{
    let preferred = ["intel_backlight", "amdgpu_bl0", "radeon_bl0", "acpi_video0"];
    proof {
        reveal_strlit("intel_backlight");
        reveal_strlit("amdgpu_bl0");
        reveal_strlit("radeon_bl0");
        reveal_strlit("acpi_video0");
    }
    let mut k: usize = 0;
    while k < 4
        invariant
            k <= 4,
            preferred@.len() == 4,
            forall|j: int| 0 <= j < 4 ==> (#[trigger] preferred@[j])@ == preferred_devices()[j],
            forall|j: int| 0 <= j < k ==> !lists(entries@, #[trigger] preferred_devices()[j]),
        decreases 4 - k,
    {
        if find_entry(entries, preferred[k]) {
            assert(forall|j: int| 0 <= j < k ==> !lists(entries@, #[trigger] preferred_devices()[j]));
            return Some(preferred[k].to_owned());
        }
        k += 1;
    }
    if entries.len() > 0 {
        Some(entries[0].clone())
    } else {
        None
    }
}

/// Percentage of `current` over `max`, rounded to the nearest whole percent
/// and capped at 100.
pub open spec fn percent_of(current: int, max: int) -> int {
    if current >= max {
        100
    } else {
        (current * 100 + max / 2) / max
    }
}

/// Raw device value for a percentage: `percent / 100 * max`, rounded half up.
pub open spec fn raw_of(percent: int, max: int) -> int {
    (percent * max + 50) / 100
}

/// Percentage that a device reading stands for.
pub fn percent_from_raw(current: u64, max: u64) -> (r: u32)
    requires
        max > 0,
    ensures
        r == percent_of(current as int, max as int),
        r <= 100,
{
    if current >= max {
        100
    } else {
        let c = current as u128;
        let m = max as u128;
        assert(c * 100 < m * 100) by (nonlinear_arith)
            requires c < m;
        let num = c * 100 + m / 2;
        let q = num / m;
        assert(num < m * 100 + m) by (nonlinear_arith)
            requires c < m, num == c * 100 + m / 2;
        assert(q <= 100) by (nonlinear_arith)
            requires num < m * 100 + m, q == num / m, m > 0;
        q as u32
    }
}

/// Raw value to write for a percentage, on a device whose maximum is `max`.
pub fn raw_brightness(percent: u32, max: u64) -> (r: u64)
    requires
        percent <= 100,
    ensures
        r == raw_of(percent as int, max as int),
{
    let p = percent as u128;
    let m = max as u128;
    assert(p * m <= 100 * m) by (nonlinear_arith)
        requires p <= 100;
    let num = p * m + 50;
    let q = num / 100;
    assert(q <= m) by (nonlinear_arith)
        requires p <= 100, num == p * m + 50, q == num / 100;
    q as u64
}

/// Backlight control: cached brightness of a display backlight device.
pub struct BacklightControl {
    device: Option<String>,
    current_brightness: u32,
    events: Option<EventManager>,
}

impl BacklightControl {
    /// Cached brightness, whole percent.
    pub closed spec fn brightness(&self) -> int {
        self.current_brightness as int
    }

    /// Name of the device in use, if one was found.
    pub closed spec fn device_name(&self) -> Option<Seq<char>> {
        match self.device {
            Some(d) => Some(d@),
            None => None,
        }
    }

    pub closed spec fn published(&self) -> Option<Seq<Event>> {
        match self.events {
            Some(e) => Some(e.published()),
            None => None,
        }
    }

    pub closed spec fn wf(&self) -> bool {
        self.current_brightness <= 100
    }

    /// A well-formed control's level lies within [0, 100].
    pub proof fn lemma_level_in_range(&self)
        requires
            self.wf(),
        ensures
            0 <= self.brightness() <= 100,
    {
    }

    pub open spec fn state_event(&self) -> Event {
        Event::BrightnessChanged { level: self.brightness() as u32 }
    }

    /// A control with no device and no bus.
    pub fn new() -> (r: Self)
        ensures
            r.wf(),
            r.brightness() == INITIAL_BRIGHTNESS,
            r.device_name() is None,
            r.published() == None::<Seq<Event>>,
    {
        BacklightControl { device: None, current_brightness: INITIAL_BRIGHTNESS, events: None }
    }

    /// A control on the given device (if any), publishing on the given bus.
    pub fn with_device(device: Option<String>, events: Option<EventManager>) -> (r: Self)
        ensures
            r.wf(),
            r.brightness() == INITIAL_BRIGHTNESS,
            r.device_name() == (match device {
                Some(d) => Some(d@),
                None => None::<Seq<char>>,
            }),
            r.published() == (match events {
                Some(e) => Some(e.published()),
                None => None::<Seq<Event>>,
            }),
    {
        BacklightControl { device, current_brightness: INITIAL_BRIGHTNESS, events }
    }

    /// A control with no device, publishing on the given bus.
    pub fn with_events(events: EventManager) -> (r: Self)
        ensures
            r.wf(),
            r.brightness() == INITIAL_BRIGHTNESS,
            r.device_name() is None,
            r.published() == Some(events.published()),
    {
        BacklightControl::with_device(None, Some(events))
    }

    /// True when a backlight device was found.
    pub fn is_available(&self) -> (r: bool)
        ensures
            r == self.device_name() is Some,
    {
        self.device.is_some()
    }

    /// The device in use.
    pub fn device(&self) -> (r: Option<&String>)
        ensures
            match r {
                Some(d) => self.device_name() == Some(d@),
                None => self.device_name() is None,
            },
    {
        self.device.as_ref()
    }

    /// Cached brightness, whole percent; never fails.
    pub fn get_brightness(&self) -> (r: Result<u32, AmiyaError>)
        ensures
            r == Ok::<u32, AmiyaError>(self.brightness() as u32),
    {
        Ok(self.current_brightness)
    }

    /// Take a reading of the device (`current` out of `max`) into the cache.
    /// A maximum of zero is refused and leaves the cache as it was.
    pub fn apply_reading(&mut self, current: u64, max: u64) -> (r: Result<u32, AmiyaError>)
        requires
            old(self).wf(),
        ensures
            final(self).wf(),
            final(self).device_name() == old(self).device_name(),
            final(self).published() == old(self).published(),
            max == 0 ==> r is Err && final(self).brightness() == old(self).brightness(),
            max > 0 ==> r == Ok::<u32, AmiyaError>(percent_of(current as int, max as int) as u32)
                && final(self).brightness() == percent_of(current as int, max as int),
    {
        if max == 0 {
            Err(AmiyaError::Backend("Invalid max_brightness: 0".to_owned()))
        } else {
            let p = percent_from_raw(current, max);
            self.current_brightness = p;
            Ok(p)
        }
    }

    fn publish_state(&mut self)
        ensures
            final(self).published() == record_after(old(self).published(), old(self).state_event()),
            final(self).brightness() == old(self).brightness(),
            final(self).device_name() == old(self).device_name(),
            final(self).wf() == old(self).wf(),
    {
        let ev = Event::BrightnessChanged { level: self.current_brightness };
        match &mut self.events {
            Some(events) => events.emit(ev),
            None => {},
        }
    }

    /// Set the brightness to `brightness` clamped to [0, 100] and publish one
    /// `BrightnessChanged` event. Writing the device is best effort and is
    /// done by the caller with `raw_brightness`; its failure changes nothing
    /// here.
    pub fn set_brightness(&mut self, brightness: i64) -> (r: Result<(), AmiyaError>)
        requires
            old(self).wf(),
        ensures
            r is Ok,
            final(self).wf(),
            final(self).brightness() == clamp_percent(brightness as int),
            final(self).device_name() == old(self).device_name(),
            final(self).published() == record_after(old(self).published(), final(self).state_event()),
    {
        self.current_brightness = clamp_level(brightness);
        self.publish_state();
        Ok(())
    }

    /// Raise the brightness by `step`, clamped to [0, 100].
    pub fn increase_brightness(&mut self, step: i64) -> (r: Result<(), AmiyaError>)
        requires
            old(self).wf(),
        ensures
            r is Ok,
            final(self).wf(),
            final(self).brightness() == clamp_percent(old(self).brightness() + step),
            final(self).device_name() == old(self).device_name(),
            final(self).published() == record_after(old(self).published(), final(self).state_event()),
    {
        self.current_brightness = offset_level(self.current_brightness, step);
        self.publish_state();
        Ok(())
    }

    /// Lower the brightness by `step`, clamped to [0, 100].
    pub fn decrease_brightness(&mut self, step: i64) -> (r: Result<(), AmiyaError>)
        requires
            old(self).wf(),
        ensures
            r is Ok,
            final(self).wf(),
            final(self).brightness() == clamp_percent(old(self).brightness() - step),
            final(self).device_name() == old(self).device_name(),
            final(self).published() == record_after(old(self).published(), final(self).state_event()),
    {
        self.current_brightness = lower_level(self.current_brightness, step);
        self.publish_state();
        Ok(())
    }
}

impl Default for BacklightControl {
    fn default() -> (r: Self)
        ensures
            r.wf(),
            r.brightness() == INITIAL_BRIGHTNESS,
            r.device_name() is None,
            r.published() == None::<Seq<Event>>,
    {
        BacklightControl::new()
    }
}

} // verus!
