use amiya::app::AppState;
use amiya::backend::power::PowerAction;
use amiya::config::Config;
use amiya::events::{Event, PopupType};
use amiya::ipc::protocol::{BrightnessAction, Command, Response, VolumeAction};
use amiya::ipc::server::{handle_command, power_outcome, Dispatch};

fn state() -> AppState {
    AppState::new(Config::default(), None, None)
}

fn reply(d: Dispatch) -> Response {
    match d {
        Dispatch::Reply(r) => r,
        other => panic!("expected a reply, got {:?}", other),
    }
}

fn success(message: &str) -> Response {
    Response::success_with_message(message.to_string())
}

#[test]
fn volume_set_end_to_end() {
    let mut s = state();
    let cmd = Command::Volume { action: VolumeAction::SetLevel { level: 150 } };
    assert_eq!(reply(handle_command(&mut s, cmd, 0)), success("Volume adjusted"));
    assert_eq!(s.audio_control.as_ref().unwrap().get_volume().unwrap(), 100);
}

#[test]
fn default_steps_are_five() {
    let mut s = state();
    reply(handle_command(&mut s, Command::Volume { action: VolumeAction::Up { amount: None } }, 0));
    assert_eq!(s.audio_control.as_ref().unwrap().get_volume().unwrap(), 55);
    reply(handle_command(&mut s, Command::Brightness { action: BrightnessAction::Down { amount: None } }, 0));
    assert_eq!(s.backlight_control.as_ref().unwrap().get_brightness().unwrap(), 45);
    reply(handle_command(&mut s, Command::Brightness { action: BrightnessAction::Up { amount: Some(20) } }, 0));
    assert_eq!(s.backlight_control.as_ref().unwrap().get_brightness().unwrap(), 65);
}

#[test]
fn mute_commands() {
    let mut s = state();
    reply(handle_command(&mut s, Command::Volume { action: VolumeAction::Mute }, 0));
    assert!(s.audio_control.as_ref().unwrap().get_mute().unwrap());
    reply(handle_command(&mut s, Command::Volume { action: VolumeAction::ToggleMute }, 0));
    assert!(!s.audio_control.as_ref().unwrap().get_mute().unwrap());
    reply(handle_command(&mut s, Command::Volume { action: VolumeAction::Unmute }, 0));
    assert!(!s.audio_control.as_ref().unwrap().get_mute().unwrap());
}

#[test]
fn absent_adapters_give_errors() {
    let mut s = state();
    s.audio_control = None;
    s.backlight_control = None;
    s.power_control = None;
    assert_eq!(
        reply(handle_command(&mut s, Command::Volume { action: VolumeAction::Mute }, 0)),
        Response::error("Audio control not available".to_string())
    );
    assert_eq!(
        reply(handle_command(&mut s, Command::Brightness { action: BrightnessAction::SetLevel { level: 3 } }, 0)),
        Response::error("Backlight control not available".to_string())
    );
    assert_eq!(
        reply(handle_command(&mut s, Command::Power { action: PowerAction::Reboot }, 0)),
        Response::error("Power control not available".to_string())
    );
}

#[test]
fn ping_answers_pong_without_backends() {
    let mut s = state();
    s.audio_control = None;
    s.backlight_control = None;
    s.bluetooth_control = None;
    s.network_control = None;
    s.media_control = None;
    s.battery_control = None;
    s.power_control = None;
    assert_eq!(reply(handle_command(&mut s, Command::Ping, 0)), Response::pong());
    let mut full = state();
    assert_eq!(reply(handle_command(&mut full, Command::Ping, 0)), Response::Pong);
}

#[test]
fn popup_commands_publish_and_succeed() {
    let mut s = state();
    let mut rx = s.events.subscribe();
    assert_eq!(
        reply(handle_command(&mut s, Command::ShowPopup { popup: PopupType::MediaControl }, 0)),
        success("Showing MediaControl popup")
    );
    assert_eq!(
        reply(handle_command(&mut s, Command::HidePopup { popup: PopupType::Wifi }, 0)),
        success("Hiding Wifi popup")
    );
    assert_eq!(
        reply(handle_command(&mut s, Command::TogglePopup { popup: PopupType::Power }, 0)),
        success("Toggling Power popup")
    );
    assert!(matches!(rx.try_recv(), Ok(Event::PopupRequested { popup_type: PopupType::MediaControl })));
    assert!(matches!(rx.try_recv(), Ok(Event::PopupClosed { popup_type: PopupType::Wifi })));
    assert!(matches!(rx.try_recv(), Ok(Event::PopupRequested { popup_type: PopupType::Power })));
}

#[test]
fn status_reports_version_and_uptime() {
    let mut s = state();
    assert_eq!(
        reply(handle_command(&mut s, Command::Status, 42)),
        Response::Status { version: "0.1.0".to_string(), uptime: 42 }
    );
}

#[test]
fn power_needs_a_connection_then_runs_a_method() {
    let mut s = state();
    assert_eq!(
        reply(handle_command(&mut s, Command::Power { action: PowerAction::Suspend }, 0)),
        Response::error("Failed to execute power action: Backend error: Not connected to D-Bus".to_string())
    );
    let p = s.power_control.as_mut().unwrap();
    p.connect();
    p.finish_connect(Ok(())).unwrap();
    assert_eq!(
        handle_command(&mut s, Command::Power { action: PowerAction::Suspend }, 0),
        Dispatch::Power { action: PowerAction::Suspend, method: "Suspend" }
    );
    assert_eq!(power_outcome(PowerAction::Suspend, Ok(())), success("Power action requested: Suspend"));
    assert_eq!(
        power_outcome(PowerAction::Suspend, Err("denied".to_string())),
        Response::error("Failed to execute power action: Backend error: denied".to_string())
    );
}

#[test]
fn response_constructors() {
    assert_eq!(Response::success(), Response::Success { message: None });
    assert_eq!(Response::error("x".to_string()), Response::Error { message: "x".to_string() });
}

#[test]
fn registry_construction() {
    let s = AppState::new(Config::default(), Some("/run/niri.sock".to_string()), Some("intel_backlight".to_string()));
    assert!(s.niri_client.is_some());
    assert!(s.backlight_control.as_ref().unwrap().is_available());
    assert!(!s.audio_control.as_ref().unwrap().is_available());
    assert_eq!(s.audio_control.as_ref().unwrap().get_volume().unwrap(), 50);
}

#[test]
fn ping_and_status_publish_nothing() {
    let mut s = state();
    let mut rx = s.events.subscribe();
    reply(handle_command(&mut s, Command::Ping, 0));
    reply(handle_command(&mut s, Command::Status, 3));
    assert!(rx.try_recv().is_err());
    assert_eq!(s.audio_control.as_ref().unwrap().get_volume().unwrap(), 50);
}

#[test]
fn only_relative_brightness_requests_are_relative() {
    assert!(BrightnessAction::Up { amount: None }.is_relative());
    assert!(BrightnessAction::Down { amount: Some(3) }.is_relative());
    assert!(!BrightnessAction::SetLevel { level: 3 }.is_relative());
}
