use vstd::prelude::*;
use crate::app::{same_except, AppState};
use crate::backend::level::clamp_percent;
use crate::backend::power::{logind_method, PowerAction};
use crate::error::{error_prefix, error_text, AmiyaError};
use crate::events::{Event, PopupType};
use crate::ipc::protocol::{BrightnessAction, Command, Response, VolumeAction};

verus! {

/// Step of an `up` or `down` request that names no amount.
pub const DEFAULT_VOLUME_STEP: i64 = 5;

pub const DEFAULT_BRIGHTNESS_STEP: i64 = 5;

/// Version reported by `status`.
pub const VERSION: &'static str = "0.1.0";

/// What the dispatcher decided for one command: a reply, or a power action
/// whose login manager method the caller must run before replying with
/// `power_outcome`.
#[derive(Debug, Clone, PartialEq, Eq)]
pub enum Dispatch {
    Reply(Response),
    Power { action: PowerAction, method: &'static str },
}

pub open spec fn popup_name(p: PopupType) -> Seq<char> {
    match p {
        PopupType::Bluetooth => "Bluetooth"@,
        PopupType::Wifi => "Wifi"@,
        PopupType::MediaControl => "MediaControl"@,
        PopupType::Power => "Power"@,
    }
}

/// Volume after a request, from level `l`.
pub open spec fn volume_after(l: int, action: VolumeAction) -> int {
    match action {
        VolumeAction::Up { amount } => clamp_percent(l + step_of(amount)),
        VolumeAction::Down { amount } => clamp_percent(l - step_of(amount)),
        VolumeAction::SetLevel { level } => clamp_percent(level as int),
        _ => l,
    }
}

/// Mute state after a request, from state `m`.
pub open spec fn mute_after(m: bool, action: VolumeAction) -> bool {
    match action {
        VolumeAction::Mute => true,
        VolumeAction::Unmute => false,
        VolumeAction::ToggleMute => !m,
        _ => m,
    }
}

pub open spec fn step_of(amount: Option<i64>) -> int {
    match amount {
        Some(a) => a as int,
        None => 5,
    }
}

/// Brightness after a request, from level `l`.
pub open spec fn brightness_after(l: int, action: BrightnessAction) -> int {
    match action {
        BrightnessAction::Up { amount } => clamp_percent(l + step_of(amount)),
        BrightnessAction::Down { amount } => clamp_percent(l - step_of(amount)),
        BrightnessAction::SetLevel { level } => clamp_percent(level as int),
    }
}

pub open spec fn is_success_with(r: Response, m: Seq<char>) -> bool {
    r matches Response::Success { message: Some(s) } && s@ == m
}

pub open spec fn is_error_with(r: Response, m: Seq<char>) -> bool {
    r matches Response::Error { message: s } && s@ == m
}

/// The reply, when the dispatcher decided one.
pub open spec fn reply_of(d: Dispatch) -> Option<Response> {
    match d {
        Dispatch::Reply(r) => Some(r),
        _ => None,
    }
}

pub open spec fn replies_success(d: Dispatch, m: Seq<char>) -> bool {
    reply_of(d) matches Some(r) && is_success_with(r, m)
}

pub open spec fn replies_error(d: Dispatch, m: Seq<char>) -> bool {
    reply_of(d) matches Some(r) && is_error_with(r, m)
}

pub open spec fn replies_any_error(d: Dispatch) -> bool {
    reply_of(d) matches Some(r) && r is Error
}

/// The dispatcher asks for the login manager method of `action`.
pub open spec fn runs_power(d: Dispatch, action: PowerAction) -> bool {
    d matches Dispatch::Power { action: a, method: m } && a == action && m@ == logind_method(action)
}

fn popup_label(p: PopupType) -> (r: &'static str)
    ensures
        r@ == popup_name(p),
{
    proof {
        reveal_strlit("Bluetooth");
        reveal_strlit("Wifi");
        reveal_strlit("MediaControl");
        reveal_strlit("Power");
    }
    match p {
        PopupType::Bluetooth => "Bluetooth",
        PopupType::Wifi => "Wifi",
        PopupType::MediaControl => "MediaControl",
        PopupType::Power => "Power",
    }
}

fn popup_message(verb: &str, p: PopupType) -> (r: String)
    ensures
        r@ == verb@ + " "@ + popup_name(p) + " popup"@,
{
    verb.to_owned().concat(" ").concat(popup_label(p)).concat(" popup")
}

/// Ask for a popup: publish `PopupRequested`; always succeeds.
pub fn handle_show_popup(state: &mut AppState, popup: PopupType) -> (r: Response)
    ensures
        is_success_with(r, "Showing "@ + popup_name(popup) + " popup"@),
        final(state).events.published() == old(state).events.published().push(
            Event::PopupRequested { popup_type: popup },
        ),
        same_except(*old(state), *final(state), false, false),
{
    state.events.emit(Event::PopupRequested { popup_type: popup });
    let m = popup_message("Showing", popup);
    proof {
        reveal_strlit("Showing");
        reveal_strlit(" ");
        reveal_strlit("Showing ");
        assert(m@ =~= "Showing "@ + popup_name(popup) + " popup"@);
    }
    Response::success_with_message(m)
}

/// Close a popup: publish `PopupClosed`; always succeeds.
pub fn handle_hide_popup(state: &mut AppState, popup: PopupType) -> (r: Response)
    ensures
        is_success_with(r, "Hiding "@ + popup_name(popup) + " popup"@),
        final(state).events.published() == old(state).events.published().push(
            Event::PopupClosed { popup_type: popup },
        ),
        same_except(*old(state), *final(state), false, false),
{
    state.events.emit(Event::PopupClosed { popup_type: popup });
    let m = popup_message("Hiding", popup);
    proof {
        reveal_strlit("Hiding");
        reveal_strlit(" ");
        reveal_strlit("Hiding ");
        assert(m@ =~= "Hiding "@ + popup_name(popup) + " popup"@);
    }
    Response::success_with_message(m)
}

/// Toggle a popup: the popup layer tracks visibility, so this publishes
/// `PopupRequested`; always succeeds.
pub fn handle_toggle_popup(state: &mut AppState, popup: PopupType) -> (r: Response)
    ensures
        is_success_with(r, "Toggling "@ + popup_name(popup) + " popup"@),
        final(state).events.published() == old(state).events.published().push(
            Event::PopupRequested { popup_type: popup },
        ),
        same_except(*old(state), *final(state), false, false),
{
    state.events.emit(Event::PopupRequested { popup_type: popup });
    let m = popup_message("Toggling", popup);
    proof {
        reveal_strlit("Toggling");
        reveal_strlit(" ");
        reveal_strlit("Toggling ");
        assert(m@ =~= "Toggling "@ + popup_name(popup) + " popup"@);
    }
    Response::success_with_message(m)
}

fn failure_message(prefix: &str, e: &AmiyaError) -> (r: String)
    ensures
        r@ == prefix@ + error_prefix(*e) + error_text(*e),
{
    prefix.to_owned().concat(e.message().as_str())
}

/// Apply a volume request to the audio adapter.
pub fn handle_volume(state: &mut AppState, action: VolumeAction) -> (r: Response)
    requires
        old(state).wf(),
    ensures
        final(state).wf(),
        final(state).events.published() == old(state).events.published(),
        same_except(*old(state), *final(state), true, false),
        match old(state).audio_control {
            None => is_error_with(r, "Audio control not available"@)
                && final(state).audio_control is None,
            Some(a) => {
                &&& is_success_with(r, "Volume adjusted"@)
                &&& final(state).audio_control is Some
                &&& final(state).audio_control.unwrap().volume() == volume_after(a.volume(), action)
                &&& final(state).audio_control.unwrap().muted() == mute_after(a.muted(), action)
                &&& final(state).audio_control.unwrap().link() == a.link()
                &&& final(state).audio_control.unwrap().published() == crate::events::record_after(
                    a.published(),
                    final(state).audio_control.unwrap().state_event(),
                )
            },
        },
{
    proof {
        reveal_strlit("Audio control not available");
        reveal_strlit("Volume adjusted");
    }
    match &mut state.audio_control {
        Some(audio) => {
            let result = match action {
                VolumeAction::Up { amount } => {
                    let step = match amount {
                        Some(a) => a,
                        None => DEFAULT_VOLUME_STEP,
                    };
                    audio.increase_volume(step)
                },
                VolumeAction::Down { amount } => {
                    let step = match amount {
                        Some(a) => a,
                        None => DEFAULT_VOLUME_STEP,
                    };
                    audio.decrease_volume(step)
                },
                VolumeAction::SetLevel { level } => audio.set_volume(level),
                VolumeAction::Mute => audio.set_mute(true),
                VolumeAction::Unmute => audio.set_mute(false),
                VolumeAction::ToggleMute => audio.toggle_mute(),
            };
            match result {
                Ok(_) => Response::success_with_message("Volume adjusted".to_owned()),
                Err(e) => Response::error(failure_message("Failed to adjust volume: ", &e)),
            }
        },
        None => Response::error("Audio control not available".to_owned()),
    }
}

/// Apply a brightness request to the backlight adapter.
pub fn handle_brightness(state: &mut AppState, action: BrightnessAction) -> (r: Response)
    requires
        old(state).wf(),
    ensures
        final(state).wf(),
        final(state).events.published() == old(state).events.published(),
        same_except(*old(state), *final(state), false, true),
        match old(state).backlight_control {
            None => is_error_with(r, "Backlight control not available"@)
                && final(state).backlight_control is None,
            Some(a) => {
                &&& is_success_with(r, "Brightness adjusted"@)
                &&& final(state).backlight_control is Some
                &&& final(state).backlight_control.unwrap().brightness() == brightness_after(a.brightness(), action)
                &&& final(state).backlight_control.unwrap().device_name() == a.device_name()
                &&& final(state).backlight_control.unwrap().published() == crate::events::record_after(
                    a.published(),
                    final(state).backlight_control.unwrap().state_event(),
                )
            },
        },
{
    proof {
        reveal_strlit("Backlight control not available");
        reveal_strlit("Brightness adjusted");
    }
    match &mut state.backlight_control {
        Some(backlight) => {
            let result = match action {
                BrightnessAction::Up { amount } => {
                    let step = match amount {
                        Some(a) => a,
                        None => DEFAULT_BRIGHTNESS_STEP,
                    };
                    backlight.increase_brightness(step)
                },
                BrightnessAction::Down { amount } => {
                    let step = match amount {
                        Some(a) => a,
                        None => DEFAULT_BRIGHTNESS_STEP,
                    };
                    backlight.decrease_brightness(step)
                },
                BrightnessAction::SetLevel { level } => backlight.set_brightness(level),
            };
            match result {
                Ok(_) => Response::success_with_message("Brightness adjusted".to_owned()),
                Err(e) => Response::error(failure_message("Failed to adjust brightness: ", &e)),
            }
        },
        None => Response::error("Backlight control not available".to_owned()),
    }
}

/// Decide a power request: an error reply when the adapter is absent or not
/// connected, else the login manager method to run.
pub fn handle_power(state: &AppState, action: PowerAction) -> (r: Dispatch)
    ensures
        match state.power_control {
            None => replies_error(r, "Power control not available"@),
            Some(p) => if p.link() == crate::backend::link::LinkState::Connected {
                runs_power(r, action)
            } else {
                replies_error(r, "Failed to execute power action: Backend error: Not connected to D-Bus"@)
            },
        },
{
    proof {
        reveal_strlit("Power control not available");
        reveal_strlit("Failed to execute power action: ");
        reveal_strlit("Backend error: ");
        reveal_strlit("Not connected to D-Bus");
        reveal_strlit("Failed to execute power action: Backend error: Not connected to D-Bus");
    }
    match &state.power_control {
        Some(power) => match power.execute(action) {
            Ok(method) => Dispatch::Power { action, method },
            Err(e) => {
                let m = failure_message("Failed to execute power action: ", &e);
                assert(m@ =~= "Failed to execute power action: Backend error: Not connected to D-Bus"@);
                Dispatch::Reply(Response::error(m))
            },
        },
        None => Dispatch::Reply(Response::error("Power control not available".to_owned())),
    }
}

/// The reply to a power request once its login manager call returned.
pub fn power_outcome(action: PowerAction, outcome: Result<(), String>) -> (r: Response)
    ensures
        match outcome {
            Ok(_) => is_success_with(r, "Power action requested: "@ + crate::backend::power::power_label(action)),
            Err(m) => is_error_with(r, "Failed to execute power action: Backend error: "@ + m@),
        },
{
    proof {
        reveal_strlit("Failed to execute power action: ");
        reveal_strlit("Backend error: ");
        reveal_strlit("Power action requested: ");
        reveal_strlit("Failed to execute power action: Backend error: ");
    }
    match outcome {
        Err(m) => {
            let e = AmiyaError::Backend(m);
            let s = failure_message("Failed to execute power action: ", &e);
            assert(s@ =~= "Failed to execute power action: Backend error: "@ + error_text(e));
            Response::error(s)
        },
        Ok(_) => {
            let m = "Power action requested: ".to_owned().concat(action.label());
            assert(m@ =~= "Power action requested: "@ + crate::backend::power::power_label(action));
            Response::success_with_message(m)
        },
    }
}

/// The reply to a line that is not a command; `reason` says why.
pub fn invalid_command(reason: String) -> (r: Response)
    ensures
        is_error_with(r, "Invalid command: "@ + reason@),
{
    Response::error("Invalid command: ".to_owned().concat(reason.as_str()))
}

/// Report version and uptime.
pub fn handle_status(uptime: u64) -> (r: Response)
    ensures
        r matches Response::Status { version: v, uptime: u } && v@ == VERSION@ && u == uptime,
{
    Response::Status { version: VERSION.to_owned(), uptime }
}

/// Dispatch one command. `ping` always answers `pong`; a command whose
/// adapter is absent is answered with an error; nothing here blocks.
pub fn handle_command(state: &mut AppState, command: Command, uptime: u64) -> (r: Dispatch)
    requires
        old(state).wf(),
    ensures
        final(state).wf(),
        command == Command::Ping ==> r == Dispatch::Reply(Response::Pong) && *final(state) == *old(state),
        (command is Volume && old(state).audio_control is None) ==> replies_any_error(r),
        (command is Brightness && old(state).backlight_control is None) ==> replies_any_error(r),
        (command is Power && old(state).power_control is None) ==> replies_any_error(r),
        match command {
            Command::ShowPopup { popup } => {
                &&& replies_success(r, "Showing "@ + popup_name(popup) + " popup"@)
                &&& same_except(*old(state), *final(state), false, false)
                &&& final(state).events.published() == old(state).events.published().push(
                    Event::PopupRequested { popup_type: popup },
                )
            },
            Command::HidePopup { popup } => {
                &&& replies_success(r, "Hiding "@ + popup_name(popup) + " popup"@)
                &&& same_except(*old(state), *final(state), false, false)
                &&& final(state).events.published() == old(state).events.published().push(
                    Event::PopupClosed { popup_type: popup },
                )
            },
            Command::TogglePopup { popup } => {
                &&& replies_success(r, "Toggling "@ + popup_name(popup) + " popup"@)
                &&& same_except(*old(state), *final(state), false, false)
                &&& final(state).events.published() == old(state).events.published().push(
                    Event::PopupRequested { popup_type: popup },
                )
            },
            Command::Volume { action } => match old(state).audio_control {
                None => replies_error(r, "Audio control not available"@),
                Some(a) => {
                    &&& replies_success(r, "Volume adjusted"@)
                    &&& final(state).audio_control is Some
                    &&& final(state).audio_control.unwrap().volume() == volume_after(a.volume(), action)
                    &&& final(state).audio_control.unwrap().muted() == mute_after(a.muted(), action)
                    &&& final(state).audio_control.unwrap().published() == crate::events::record_after(
                        a.published(),
                        final(state).audio_control.unwrap().state_event(),
                    )
                },
            },
            Command::Brightness { action } => match old(state).backlight_control {
                None => replies_error(r, "Backlight control not available"@),
                Some(a) => {
                    &&& replies_success(r, "Brightness adjusted"@)
                    &&& final(state).backlight_control is Some
                    &&& final(state).backlight_control.unwrap().brightness() == brightness_after(a.brightness(), action)
                    &&& final(state).backlight_control.unwrap().published() == crate::events::record_after(
                        a.published(),
                        final(state).backlight_control.unwrap().state_event(),
                    )
                },
            },
            Command::Power { action } => match old(state).power_control {
                None => replies_error(r, "Power control not available"@),
                Some(p) => if p.link() == crate::backend::link::LinkState::Connected {
                    runs_power(r, action)
                } else {
                    replies_any_error(r)
                },
            },
            Command::Status => {
                &&& *final(state) == *old(state)
                &&& (reply_of(r) matches Some(resp) && resp matches Response::Status { version: v, uptime: u }
                    && v@ == VERSION@ && u == uptime)
            },
            Command::Ping => r == Dispatch::Reply(Response::Pong) && *final(state) == *old(state),
        },
{
    match command {
        Command::ShowPopup { popup } => Dispatch::Reply(handle_show_popup(state, popup)),
        Command::HidePopup { popup } => Dispatch::Reply(handle_hide_popup(state, popup)),
        Command::TogglePopup { popup } => Dispatch::Reply(handle_toggle_popup(state, popup)),
        Command::Volume { action } => Dispatch::Reply(handle_volume(state, action)),
        Command::Brightness { action } => Dispatch::Reply(handle_brightness(state, action)),
        Command::Power { action } => handle_power(state, action),
        Command::Status => Dispatch::Reply(handle_status(uptime)),
        Command::Ping => Dispatch::Reply(Response::pong()),
    }
}

} // verus!
