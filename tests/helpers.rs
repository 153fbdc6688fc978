use amiya::backend::niri::client::{check_reply_error, find_socket, NiriClient};
use amiya::backend::niri::events::{workspace_infos, NiriEventListener};
use amiya::backend::niri::protocol::{NiriEvent, NiriWorkspace};
use amiya::config::{default_bar, default_font_size, default_height, Config, HotkeyAction, Position, ThemeConfig};
use amiya::ctl::{exit_code, parse_popup_type};
use amiya::ipc::protocol::Response;
use amiya::ipc::server::invalid_command;
use amiya::error::AmiyaError;
use amiya::events::{Event, EventManager, PopupType};
use amiya::paths::{config_dir, config_file, runtime_dir, socket_path};
use amiya::sampler::{celsius_from_millidegrees, memory_percent};

#[test]
fn test_find_socket() {
    match find_socket("/run/user/1000", "wayland-1", false, &vec!["niri.wayland-1.sock".to_string()]) {
        Ok(path) => {
            assert!(path.contains("niri"));
            assert!(path.ends_with(".sock"));
        }
        Err(e) => panic!("unexpected {:?}", e),
    }
    match find_socket("/run/user/1000", "wayland-1", false, &vec!["notes.txt".to_string()]) {
        Ok(path) => panic!("unexpected {}", path),
        Err(e) => assert!(e.message().contains("Could not find niri socket")),
    }
}

#[test]
fn socket_lookup_prefers_the_standard_path() {
    let names = vec!["a.sock".to_string()];
    assert_eq!(find_socket("/r", "wayland-0", true, &names).unwrap(), "/r/niri/niri-wayland-0.sock");
    assert_eq!(find_socket("/r", "wayland-0", false, &names).unwrap(), "/r/niri/a.sock");
    assert!(find_socket("/r", "wayland-0", false, &vec![".sock".to_string()]).is_err());
}

#[test]
fn request_ids_increase() {
    let mut c = NiriClient::new("/r/niri.sock".to_string());
    assert_eq!(c.next_id(), 1);
    assert_eq!(c.next_id(), 2);
    assert_eq!(c.next_id(), 3);
    assert_eq!(c.socket_path(), "/r/niri.sock");
}

#[test]
fn reply_errors_become_ipc_errors() {
    assert_eq!(check_reply_error(None), Ok(()));
    assert_eq!(
        check_reply_error(Some((-32600, "bad request".to_string()))),
        Err(AmiyaError::Ipc("Niri error: bad request (code: -32600)".to_string()))
    );
}

#[test]
fn workspaces_are_known_by_index() {
    let ws = vec![NiriWorkspace { id: 123, name: Some("web".to_string()), idx: 2, is_active: true, is_focused: false }];
    let infos = workspace_infos(&ws);
    assert_eq!(infos.len(), 1);
    assert_eq!(infos[0].id, 2);
    assert_eq!(infos[0].name, Some("web".to_string()));
}

#[test]
fn compositor_notifications_become_bus_events() {
    let bus = EventManager::new(8);
    let mut rx = bus.subscribe();
    let mut listener = NiriEventListener::new(bus.clone());
    listener.handle_niri_event(NiriEvent::WorkspaceActivated { id: 5, focused: true });
    listener.handle_niri_event(NiriEvent::WindowClosed { id: 9 });
    listener.handle_niri_event(NiriEvent::WorkspacesChanged { workspaces: Vec::new() });
    assert!(matches!(rx.try_recv(), Ok(Event::WorkspaceChanged { id: 5 })));
    assert!(matches!(rx.try_recv(), Ok(Event::WorkspacesUpdated { .. })));
    assert!(rx.try_recv().is_err());
}

#[test]
fn config_defaults() {
    let c = Config::default();
    assert_eq!(c.bar.height, 32);
    assert_eq!(c.bar.position, Position::Top);
    assert!(c.bar.show_clock);
    assert_eq!(c.hotkeys.len(), 3);
    assert_eq!(c.hotkeys[0], ("Super+B".to_string(), HotkeyAction::ShowBluetooth));
    assert_eq!(c.theme.background, "#1e1e2e");
    assert_eq!(c.theme.font, "Sans");
    assert_eq!(ThemeConfig::default().font_size, 11);
    assert_eq!(default_height(), 32);
    assert_eq!(default_font_size(), 11);
    assert!(default_bar().show_workspaces);
}

#[test]
fn popup_names_ignore_case() {
    assert_eq!(parse_popup_type("BT"), Ok(PopupType::Bluetooth));
    assert_eq!(parse_popup_type("Network"), Ok(PopupType::Wifi));
    assert_eq!(parse_popup_type("MEDIA-CONTROL"), Ok(PopupType::MediaControl));
    assert_eq!(parse_popup_type("power"), Ok(PopupType::Power));
    assert_eq!(
        parse_popup_type("volume"),
        Err("Invalid popup type: volume. Valid types: bluetooth, wifi, media-control, power".to_string())
    );
}

#[test]
fn runtime_paths() {
    assert_eq!(runtime_dir(Some("/run/user/7".to_string()), Some("/var/tmp".to_string())), "/run/user/7");
    assert_eq!(runtime_dir(None, Some("/var/tmp".to_string())), "/var/tmp");
    assert_eq!(runtime_dir(None, None), "/tmp");
    assert_eq!(socket_path("/tmp"), "/tmp/amiya/amiya.sock");
    assert_eq!(config_dir(None, Some("/home/u".to_string())), Some("/home/u/.config".to_string()));
    assert_eq!(config_dir(None, None), None);
    assert_eq!(config_file("/etc/xdg"), "/etc/xdg/amiya/config.toml");
}

#[test]
fn sampler_arithmetic() {
    assert_eq!(memory_percent(1, 3), 33);
    assert_eq!(memory_percent(2, 3), 67);
    assert_eq!(memory_percent(5, 0), 0);
    assert_eq!(memory_percent(9, 4), 100);
    assert_eq!(celsius_from_millidegrees(45500), 45);
    assert_eq!(celsius_from_millidegrees(-1500), -1);
}

#[test]
fn error_messages_name_their_kind() {
    assert_eq!(AmiyaError::Backend("gone".to_string()).message(), "Backend error: gone");
    assert_eq!(AmiyaError::Config("bad".to_string()).message(), "Configuration error: bad");
}

#[test]
fn exit_codes_and_invalid_lines() {
    assert_eq!(exit_code(&Response::Pong), 0);
    assert_eq!(exit_code(&Response::success()), 0);
    assert_eq!(exit_code(&Response::Status { version: "0.1.0".to_string(), uptime: 1 }), 0);
    assert_eq!(exit_code(&Response::error("x".to_string())), 1);
    assert_eq!(invalid_command("eof".to_string()), Response::error("Invalid command: eof".to_string()));
}
