use amiya::backend::audio::AudioControl;
use amiya::backend::backlight::{percent_from_raw, pick_backlight_device, raw_brightness, BacklightControl};
use amiya::backend::battery::{pick_battery_device, BatteryControl, BatteryReading, BatteryState};
use amiya::backend::bluetooth::{device_path, BluetoothControl};
use amiya::backend::media::{is_mpris_name, mpris_player, players_from, parse_playback_status, track_from_fields, MediaControl, PlaybackStatus};
use amiya::backend::network::{scan_results, AccessPoint, NetworkControl};
use amiya::backend::power::{PowerAction, PowerControl};
use amiya::error::AmiyaError;
use amiya::events::{Event, EventManager};

#[test]
fn test_volume_control() {
    let mut audio = AudioControl::new();

    audio.set_volume(75).unwrap();
    assert_eq!(audio.get_volume().unwrap(), 75);

    audio.increase_volume(10).unwrap();
    assert_eq!(audio.get_volume().unwrap(), 85);

    audio.decrease_volume(20).unwrap();
    assert_eq!(audio.get_volume().unwrap(), 65);
}

#[test]
fn test_mute_control() {
    let mut audio = AudioControl::new();

    assert_eq!(audio.get_mute().unwrap(), false);

    audio.toggle_mute().unwrap();
    assert_eq!(audio.get_mute().unwrap(), true);

    audio.toggle_mute().unwrap();
    assert_eq!(audio.get_mute().unwrap(), false);
}

#[test]
fn test_volume_clamping() {
    let mut audio = AudioControl::new();

    audio.set_volume(150).unwrap();
    assert_eq!(audio.get_volume().unwrap(), 100);

    audio.set_volume(-10).unwrap();
    assert_eq!(audio.get_volume().unwrap(), 0);
}

#[test]
fn test_brightness_control() {
    let mut backlight = BacklightControl::new();

    backlight.set_brightness(75).unwrap();
    assert_eq!(backlight.get_brightness().unwrap(), 75);

    backlight.increase_brightness(10).unwrap();
    assert_eq!(backlight.get_brightness().unwrap(), 85);

    backlight.decrease_brightness(20).unwrap();
    assert_eq!(backlight.get_brightness().unwrap(), 65);
}

#[test]
fn test_brightness_clamping() {
    let mut backlight = BacklightControl::new();

    backlight.set_brightness(150).unwrap();
    assert_eq!(backlight.get_brightness().unwrap(), 100);

    backlight.set_brightness(-10).unwrap();
    assert_eq!(backlight.get_brightness().unwrap(), 0);
}

#[test]
fn test_brightness_bounds() {
    let mut backlight = BacklightControl::new();

    backlight.set_brightness(95).unwrap();
    backlight.increase_brightness(10).unwrap();
    assert_eq!(backlight.get_brightness().unwrap(), 100);

    backlight.set_brightness(5).unwrap();
    backlight.decrease_brightness(10).unwrap();
    assert_eq!(backlight.get_brightness().unwrap(), 0);
}

#[test]
fn test_bluetooth_creation() {
    let bt = BluetoothControl::new();
    assert!(!bt.is_available());
}

#[test]
fn test_powered_state() {
    let bt = BluetoothControl::new();
    assert_eq!(bt.is_powered().unwrap(), false);
}

#[test]
fn test_media_creation() {
    let media = MediaControl::new();
    assert_eq!(media.get_playback_status(), PlaybackStatus::Stopped);
}

#[test]
fn test_volume() {
    let media = MediaControl::new();
    // full volume, in whole percent
    assert_eq!(media.get_volume(), 100);
}

#[test]
fn test_network_creation() {
    let nm = NetworkControl::new();
    assert!(!nm.is_available());
}

#[test]
fn test_wifi_state() {
    let nm = NetworkControl::new();
    assert_eq!(nm.is_wifi_enabled().unwrap(), false);
}

#[test]
fn increase_then_decrease_by_same_step_restores_level() {
    let mut audio = AudioControl::new();
    audio.set_volume(40).unwrap();
    audio.increase_volume(25).unwrap();
    audio.decrease_volume(25).unwrap();
    assert_eq!(audio.get_volume().unwrap(), 40);

    let mut backlight = BacklightControl::new();
    backlight.set_brightness(60).unwrap();
    backlight.increase_brightness(-15).unwrap();
    backlight.decrease_brightness(-15).unwrap();
    assert_eq!(backlight.get_brightness().unwrap(), 60);
}

#[test]
fn extreme_steps_clamp_without_overflow() {
    let mut audio = AudioControl::new();
    audio.increase_volume(i64::MAX).unwrap();
    assert_eq!(audio.get_volume().unwrap(), 100);
    audio.decrease_volume(i64::MAX).unwrap();
    assert_eq!(audio.get_volume().unwrap(), 0);
    audio.decrease_volume(i64::MIN).unwrap();
    assert_eq!(audio.get_volume().unwrap(), 100);
    audio.set_volume(i64::MIN).unwrap();
    assert_eq!(audio.get_volume().unwrap(), 0);
}

#[test]
fn mutation_publishes_exactly_one_matching_event() {
    let bus = EventManager::new(16);
    let mut rx = bus.subscribe();
    let mut audio = AudioControl::with_events(bus.clone());
    audio.set_volume(150).unwrap();
    match rx.try_recv() {
        Ok(Event::VolumeChanged { level, muted }) => {
            assert_eq!(level, 100);
            assert!(!muted);
        }
        other => panic!("unexpected {:?}", other),
    }
    assert!(rx.try_recv().is_err());

    audio.set_mute(true).unwrap();
    match rx.try_recv() {
        Ok(Event::VolumeChanged { level, muted }) => {
            assert_eq!(level, 100);
            assert!(muted);
        }
        other => panic!("unexpected {:?}", other),
    }
    assert!(rx.try_recv().is_err());

    let mut backlight = BacklightControl::with_events(bus.clone());
    backlight.decrease_brightness(80).unwrap();
    match rx.try_recv() {
        Ok(Event::BrightnessChanged { level }) => assert_eq!(level, 0),
        other => panic!("unexpected {:?}", other),
    }
    assert!(rx.try_recv().is_err());
}

#[test]
fn repeated_connect_opens_once() {
    let mut audio = AudioControl::new();
    assert!(audio.connect());
    assert!(audio.finish_connect(Ok(())).is_ok());
    assert!(audio.is_available());
    audio.set_volume(30).unwrap();
    assert!(!audio.connect());
    assert!(!audio.connect());
    assert!(audio.is_available());
    assert_eq!(audio.get_volume().unwrap(), 30);
}

#[test]
fn failed_connect_keeps_cache_and_reports_backend_error() {
    let mut audio = AudioControl::new();
    audio.set_volume(20).unwrap();
    assert!(audio.connect());
    let r = audio.finish_connect(Err("no session bus".to_string()));
    assert_eq!(r, Err(AmiyaError::Backend("Failed to connect to D-Bus: no session bus".to_string())));
    assert!(!audio.is_available());
    assert_eq!(audio.get_volume().unwrap(), 20);
    assert!(audio.connect());
}

#[test]
fn backlight_device_choice_prefers_known_names() {
    let names = vec!["acpi_video0".to_string(), "amdgpu_bl0".to_string()];
    assert_eq!(pick_backlight_device(&names), Some("amdgpu_bl0".to_string()));
    let names = vec!["vendor_bl".to_string(), "other".to_string()];
    assert_eq!(pick_backlight_device(&names), Some("vendor_bl".to_string()));
    assert_eq!(pick_backlight_device(&Vec::new()), None);
}

#[test]
fn backlight_raw_conversions_round() {
    assert_eq!(percent_from_raw(937, 1874), 50);
    assert_eq!(percent_from_raw(1, 3), 33);
    assert_eq!(percent_from_raw(2, 3), 67);
    assert_eq!(percent_from_raw(5000, 100), 100);
    assert_eq!(raw_brightness(50, 255), 128);
    assert_eq!(raw_brightness(100, 255), 255);
    assert_eq!(raw_brightness(0, 255), 0);
}

#[test]
fn backlight_reading_updates_cache() {
    let mut backlight = BacklightControl::new();
    assert_eq!(backlight.apply_reading(120, 240), Ok(50));
    assert_eq!(backlight.get_brightness().unwrap(), 50);
    assert!(backlight.apply_reading(5, 0).is_err());
    assert_eq!(backlight.get_brightness().unwrap(), 50);
}

#[test]
fn battery_state_codes() {
    assert_eq!(BatteryState::from(1), BatteryState::Charging);
    assert_eq!(BatteryState::from(2), BatteryState::Discharging);
    assert_eq!(BatteryState::from(3), BatteryState::Empty);
    assert_eq!(BatteryState::from(4), BatteryState::FullyCharged);
    assert_eq!(BatteryState::from(0), BatteryState::Unknown);
    assert_eq!(BatteryState::FullyCharged.label(), "Fully Charged");
}

#[test]
fn battery_time_formatting() {
    assert_eq!(BatteryControl::format_time(9000), "2h 30m");
    assert_eq!(BatteryControl::format_time(2700), "45m");
    assert_eq!(BatteryControl::format_time(0), "Unknown");
    assert_eq!(BatteryControl::format_time(-5), "Unknown");
    assert_eq!(BatteryControl::format_time(36059), "10h 0m");
}

#[test]
fn battery_reading_needs_connection_and_device() {
    let bus = EventManager::new(8);
    let mut rx = bus.subscribe();
    let mut battery = BatteryControl::with_events(bus.clone());
    let reading = BatteryReading { percentage: 80, state: 1, time_to_empty: 0, time_to_full: 1200, is_present: true };
    assert!(battery.apply_reading(reading).is_err());
    assert!(battery.connect());
    battery.finish_connect(Ok(())).unwrap();
    let devices = vec![("/dev/line".to_string(), 1), ("/dev/bat0".to_string(), 2)];
    battery.set_device(pick_battery_device(&devices)).unwrap();
    battery.apply_reading(reading).unwrap();
    let info = battery.get_info();
    assert_eq!(info.percentage, 80);
    assert_eq!(info.state, BatteryState::Charging);
    assert_eq!(info.time_to_empty, None);
    assert_eq!(info.time_to_full, Some(1200));
    assert!(battery.is_charging());
    match rx.try_recv() {
        Ok(Event::BatteryChanged { percentage, state, is_charging }) => {
            assert_eq!(percentage, 80);
            assert_eq!(state, "Charging");
            assert!(is_charging);
        }
        other => panic!("unexpected {:?}", other),
    }
}

#[test]
fn bluetooth_device_object_path() {
    assert_eq!(device_path("AA:BB:CC:DD:EE:FF"), "/org/bluez/hci0/dev_AA_BB_CC_DD_EE_FF");
    assert_eq!(device_path(""), "/org/bluez/hci0/dev_");
}

#[test]
fn bluetooth_powered_needs_adapter() {
    let mut bt = BluetoothControl::new();
    assert!(bt.require_adapter().is_err());
    assert!(bt.connect());
    bt.finish_connect(Ok(())).unwrap();
    assert!(bt.require_adapter().is_err());
    bt.adapter_found("/org/bluez/hci0".to_string(), true, false);
    assert!(bt.is_available());
    assert_eq!(bt.require_adapter().unwrap(), "/org/bluez/hci0");
    bt.apply_powered(false);
    assert_eq!(bt.is_powered().unwrap(), false);
}

#[test]
fn wifi_scan_results_strongest_first_without_hidden() {
    let ap = |ssid: &str, strength: u8, wpa: u32| AccessPoint {
        ssid: ssid.to_string(),
        strength,
        flags: 0,
        wpa_flags: wpa,
        rsn_flags: 0,
    };
    let aps = vec![ap("cafe", 40, 0), ap("", 99, 0), ap("home", 80, 1), ap("lab", 40, 0)];
    let nets = scan_results(&aps);
    let names: Vec<&str> = nets.iter().map(|n| n.ssid.as_str()).collect();
    assert_eq!(names, vec!["home", "cafe", "lab"]);
    assert!(nets[0].secured);
    assert!(!nets[1].secured);
}

#[test]
fn media_player_names_and_status() {
    let p = mpris_player("org.mpris.MediaPlayer2.spotify", "Spotify".to_string()).unwrap();
    assert_eq!(p.name, "spotify");
    assert_eq!(p.bus_name, "org.mpris.MediaPlayer2.spotify");
    assert!(mpris_player("org.freedesktop.DBus", "x".to_string()).is_none());
    assert_eq!(parse_playback_status("Playing"), PlaybackStatus::Playing);
    assert_eq!(parse_playback_status("Paused"), PlaybackStatus::Paused);
    assert_eq!(parse_playback_status("weird"), PlaybackStatus::Stopped);
    let t = track_from_fields(None, Some("Band".to_string()), None, None, None);
    assert_eq!(t.title, "Unknown");
    assert_eq!(t.artist, "Band");
}

#[test]
fn media_active_player_selection() {
    let mut media = MediaControl::new();
    assert!(media.set_active_player("org.mpris.MediaPlayer2.a").is_err());
    media.connect();
    media.finish_connect(Ok(())).unwrap();
    let a = mpris_player("org.mpris.MediaPlayer2.a", "A".to_string()).unwrap();
    let b = mpris_player("org.mpris.MediaPlayer2.b", "B".to_string()).unwrap();
    media.set_players(vec![a, b]);
    assert_eq!(media.get_active_player(), Some("org.mpris.MediaPlayer2.a".to_string()));
    assert!(media.set_active_player("org.mpris.MediaPlayer2.b").is_ok());
    assert!(media.set_active_player("org.mpris.MediaPlayer2.c").is_err());
    assert_eq!(media.get_active_player(), Some("org.mpris.MediaPlayer2.b".to_string()));
    assert_eq!(media.set_volume(150), Ok(100));
    media.apply_volume(40);
    assert_eq!(media.get_volume(), 40);
}

#[test]
fn power_methods_and_capabilities() {
    let mut power = PowerControl::new();
    assert!(power.execute(PowerAction::Shutdown).is_err());
    assert!(!power.can_execute(PowerAction::Lock, None));
    power.connect();
    power.finish_connect(Ok(())).unwrap();
    assert_eq!(power.execute(PowerAction::Shutdown), Ok("PowerOff"));
    assert_eq!(power.execute(PowerAction::Lock), Ok("Lock"));
    assert_eq!(PowerAction::Reboot.capability_method(), Some("CanReboot"));
    assert!(power.can_execute(PowerAction::Lock, None));
    assert!(power.can_execute(PowerAction::Suspend, Some("challenge".to_string())));
    assert!(!power.can_execute(PowerAction::Suspend, Some("na".to_string())));
    assert!(!power.can_execute(PowerAction::Hibernate, None));
}

#[test]
fn network_list_refused_without_connection_or_device() {
    let bus = EventManager::new(8);
    let mut rx = bus.subscribe();
    let mut nm = NetworkControl::with_events(bus.clone());
    assert!(matches!(nm.get_networks(&Vec::new()), Err(AmiyaError::Backend(_))));
    nm.begin_connect();
    nm.finish_connect(Ok(())).unwrap();
    assert!(matches!(nm.get_networks(&Vec::new()), Err(AmiyaError::Backend(_))));
    assert!(rx.try_recv().is_err());
    nm.device_found(Some("/wifi0".to_string()), true).unwrap();
    let aps = vec![AccessPoint { ssid: "a".to_string(), strength: 10, flags: 0, wpa_flags: 0, rsn_flags: 2 }];
    let nets = nm.get_networks(&aps).unwrap();
    assert_eq!(nets.len(), 1);
    assert!(nets[0].secured);
    assert!(matches!(rx.try_recv(), Ok(Event::WifiNetworksUpdated { .. })));
}

#[test]
fn player_volume_is_kept_as_reported() {
    let mut media = MediaControl::new();
    media.apply_player_state("Playing", None, 150);
    assert_eq!(media.get_volume(), 150);
    assert_eq!(media.get_playback_status(), PlaybackStatus::Playing);
}

#[test]
fn unknown_player_is_a_backend_error() {
    let mut media = MediaControl::new();
    media.connect();
    media.finish_connect(Ok(())).unwrap();
    assert!(matches!(media.set_active_player("org.mpris.MediaPlayer2.x"), Err(AmiyaError::Backend(_))));
    assert!(is_mpris_name("org.mpris.MediaPlayer2.vlc"));
    assert!(!is_mpris_name("org.freedesktop.Notifications"));
}

#[test]
fn lost_connection_can_be_reopened() {
    let mut audio = AudioControl::new();
    audio.set_volume(70).unwrap();
    assert!(audio.connect());
    audio.finish_connect(Ok(())).unwrap();
    audio.connection_lost();
    assert!(!audio.is_available());
    assert_eq!(audio.get_volume().unwrap(), 70);
    assert!(audio.connect());
    let mut battery = BatteryControl::new();
    assert!(battery.needs_connect());
    battery.connect();
    battery.finish_connect(Ok(())).unwrap();
    assert!(!battery.needs_connect());
}

#[test]
fn players_come_from_media_names_with_identity() {
    let names = vec![
        "org.freedesktop.DBus".to_string(),
        "org.mpris.MediaPlayer2.vlc".to_string(),
        "org.mpris.MediaPlayer2.mpv".to_string(),
        "org.mpris.MediaPlayer2.spotify".to_string(),
    ];
    let ids = vec![Some("bus".to_string()), Some("VLC".to_string()), None, Some("Spotify".to_string())];
    let players = players_from(&names, &ids);
    assert_eq!(players.len(), 2);
    assert_eq!(players[0].name, "vlc");
    assert_eq!(players[0].identity, "VLC");
    assert_eq!(players[1].bus_name, "org.mpris.MediaPlayer2.spotify");
    let bus = EventManager::new(4);
    let mut rx = bus.subscribe();
    let mut media = MediaControl::with_events(bus.clone());
    media.discover_players(&names, &ids);
    assert_eq!(media.get_active_player(), Some("org.mpris.MediaPlayer2.vlc".to_string()));
    assert!(matches!(rx.try_recv(), Ok(Event::MediaPlayerChanged { player: Some(_) })));
}
