//! The application's state and its update logic.

use gps_gui_rs::app::{
    ack_message, default_config_path, far_enough, BleIntent, BoardDefaults, MyApp, Page, RadioEdit,
    Reading,
};
use gps_gui_rs::ble::{
    Ack, AckStatus, BleCommand, BleEvent, ConfigWrite, DiscoveredDevice, Position, PositionPacket,
    SettingId, Settings, Telemetry,
};
use gps_gui_rs::config::AppConfig;
use gps_gui_rs::gps::GpsFix;
use gps_gui_rs::points::{PointSource, Timestamp};

const DEFAULTS: BoardDefaults = BoardDefaults {
    update_interval_ms: 1000,
    esp_sleep_min_s: 5,
    esp_adv_default_s: 15,
};

fn start(loaded: Option<AppConfig>) -> (MyApp, BleCommand) {
    MyApp::new(DEFAULTS, false, true, true, "gps-config.toml".into(), loaded, 100)
}

fn app() -> MyApp {
    start(None).0
}

fn config(enabled: bool, mac: Option<&str>) -> AppConfig {
    let mut c = AppConfig::default();
    c.ble.enabled = enabled;
    c.ble.mac = mac.map(str::to_string);
    c
}

fn at(lat: f64) -> Position {
    Position { lat: lat.to_bits(), lon: 2.0f64.to_bits() }
}

fn reading(moved: f64, secs: i64) -> Reading {
    Reading {
        coords: format!("at {secs}"),
        moved: moved.to_bits(),
        time: Timestamp { secs, nanos: 0 },
    }
}

fn take(app: &mut MyApp, event: BleEvent) {
    app.take_ble_event(event, reading(0.0, 0), 500);
}

const BOARD: Settings = Settings {
    pwr_en: true,
    notify_interval_ms: 250,
    sleep_interval_s: 30,
    adv_window_s: 20,
};

const TELEMETRY: Telemetry = Telemetry {
    gps_fix: true,
    sd_ok: true,
    cfg_loaded: false,
    sats: 9,
    secs_since_rx: 3,
    last_rssi: -80,
    last_snr_cb: -125,
    rx_count: 1,
    tx_count: 2,
};

/// The WIO statuses are a link failure between the ESP and the WIO-E5, not
/// a rejected value, and have to read as something the user can act on.
#[test]
fn ack_message_separates_wio_faults_from_rejections() {
    let ack = |id, status| Ack { id, status, value_u32: None };
    assert!(ack_message(&Ack {
        id: SettingId::EspSleep,
        status: AckStatus::Applied,
        value_u32: Some(300),
    })
    .unwrap()
    .contains("5 min"));

    let wio = ack_message(&ack(SettingId::WioSleep, AckStatus::WioTimeout)).unwrap_err();
    assert!(wio.contains("WIO-E5"), "{wio}");
    let bad = ack_message(&ack(SettingId::Power, AckStatus::BadValue)).unwrap_err();
    assert!(bad.contains("GPS/LoRa power"), "{bad}");
    // An interval of 0 turns sleep off, and must not read as "every off".
    assert_eq!(
        ack_message(&Ack {
            id: SettingId::EspSleep,
            status: AckStatus::Applied,
            value_u32: Some(0),
        }),
        Ok("Board applied: sleep disabled".to_string())
    );
}

#[test]
fn every_ack_has_its_words() {
    let say = |id, status, value_u32| ack_message(&Ack { id, status, value_u32 });
    assert_eq!(
        say(SettingId::UpdateInterval, AckStatus::Applied, Some(1500)),
        Ok("Board applied: notify interval 1500 ms".into())
    );
    assert_eq!(
        say(SettingId::UpdateInterval, AckStatus::Applied, None),
        Ok("Board applied: notify interval 0 ms".into())
    );
    assert_eq!(
        say(SettingId::EspSleep, AckStatus::Applied, Some(300)),
        Ok("Board applied: wake check every 5 min".into())
    );
    assert_eq!(
        say(SettingId::GpsSleep, AckStatus::Applied, None),
        Ok("Board applied: GPS backup mode".into())
    );
    assert_eq!(
        say(SettingId::Other, AckStatus::UnknownId, None),
        Err("Board rejected: it does not know the setting setting".into())
    );
    assert_eq!(
        say(SettingId::EspSleep, AckStatus::BadValue, None),
        Err("Board rejected: bad value for wake-check interval".into())
    );
    assert_eq!(
        say(SettingId::WioSleep, AckStatus::WioError, None),
        Err("The board could not reach the WIO-E5 to set WIO-E5 sleep (link error).".into())
    );
    assert_eq!(
        say(SettingId::WioSleep, AckStatus::WioTimeout, None),
        Err("The board could not reach the WIO-E5 to set WIO-E5 sleep (no reply).".into())
    );
    assert_eq!(
        say(SettingId::Power, AckStatus::BadState, None),
        Err("Board rejected GPS/LoRa power: not valid in its current state".into())
    );
    for status in [0u8, 7, 0x10, 0xab, 0xff] {
        assert_eq!(
            say(SettingId::Power, AckStatus::Other(status), None),
            Err(format!("Board rejected GPS/LoRa power: status {status:#04x}"))
        );
    }
}

#[test]
fn startup_connects_unless_told_not_to() {
    let (app, command) = start(None);
    assert!(matches!(command, BleCommand::Connect { mac: None, chase: false }));
    assert_eq!(app.ble_intent, BleIntent::Connect);
    assert_eq!(app.ble_interval_text, "1000");
    assert_eq!(app.sleep_interval_text, "5");
    assert_eq!(app.adv_window_text, "15");
    assert_eq!(app.ble_status, "idle");
    assert_eq!(app.radio_path, "RADIO.toml");
    assert_eq!(app.config_path, "gps-config.toml");
    assert_eq!(app.page, Page::MapView);

    let (app, command) = start(Some(config(true, Some("AA"))));
    assert!(matches!(command, BleCommand::Connect { mac: Some(m), chase: false } if m == "AA"));
    assert_eq!(app.ble_mac_text, "AA");

    let (app, command) = start(Some(config(false, None)));
    assert!(matches!(command, BleCommand::Disconnect));
    assert_eq!(app.ble_intent, BleIntent::Idle);
}

#[test]
fn config_file_lives_beside_the_tile_cache() {
    assert_eq!(default_config_path(None, ""), "gps-config.toml");
    assert_eq!(default_config_path(Some(""), "gps-config.toml"), "gps-config.toml");
    assert_eq!(
        default_config_path(Some("/data/app"), "/data/app/gps-config.toml"),
        "/data/app/gps-config.toml"
    );
}

#[test]
fn each_button_sends_one_command() {
    let mut app = start(Some(config(true, Some("AA")))).0;
    let command = app.set_ble_intent(BleIntent::ConnectSleeping, 200);
    assert!(matches!(command, BleCommand::Connect { mac: Some(m), chase: true } if m == "AA"));
    assert_eq!(app.intent_since, 200);
    // Pressed again, it asks again, and the wait goes on.
    let command = app.set_ble_intent(BleIntent::ConnectSleeping, 300);
    assert!(matches!(command, BleCommand::Connect { chase: true, .. }));
    assert_eq!(app.intent_since, 200);
    assert!(matches!(app.set_ble_intent(BleIntent::Idle, 400), BleCommand::Disconnect));
    assert_eq!(app.intent_since, 400);
    // The settings say to connect, still.
    assert!(app.config.ble.enabled);
    let command = app.sync_ble_to_config(500);
    assert!(matches!(command, BleCommand::Connect { chase: false, .. }));
}

#[test]
fn intent_is_put_in_words() {
    let mut app = app();
    assert_eq!(app.ble_intent_text(0), "Connecting for 1 s.");
    assert_eq!(app.ble_intent_text(90), "Connecting for 2 min.");
    assert_eq!(app.ble_intent_text(1 << 32), "Connecting for 1 s.");
    app.set_ble_intent(BleIntent::ConnectSleeping, 0);
    assert_eq!(app.ble_intent_text(7200), "Scanning for a sleeping board for 2 h.");
    take(&mut app, BleEvent::Connected(true));
    assert_eq!(
        app.ble_intent_text(5),
        "Connected. The board stays awake until you disconnect."
    );
    app.set_ble_intent(BleIntent::Idle, 0);
    assert_eq!(app.ble_intent_text(5), "Not connecting. The board is free to sleep.");
}

#[test]
fn settings_are_loaded_and_reset() {
    let mut app = app();
    app.config_path = "  my.toml ".into();
    let path = app.config_file().unwrap();
    assert_eq!(path, "my.toml");
    let command = app.load_config(&path, Ok(config(true, Some("AA"))));
    assert!(
        matches!(command, Some(BleCommand::Connect { mac: Some(m), chase: false }) if m == "AA")
    );
    assert_eq!(app.config_feedback, Some(Ok("Loaded my.toml".into())));
    assert_eq!(app.ble_mac_text, "AA");
    assert_eq!(app.intent_since, 100);

    assert!(app.load_config(&path, Err("my.toml: gone".into())).is_none());
    assert_eq!(app.config_feedback, Some(Err("my.toml: gone".into())));
    assert_eq!(app.ble_mac_text, "AA");

    let command = app.reset_config();
    assert!(matches!(command, Some(BleCommand::Connect { mac: None, chase: false })));
    assert_eq!(app.config_feedback, Some(Ok("Reset to defaults. Not saved yet.".into())));
    assert_eq!(app.ble_mac_text, "");

    app.config_path = " \t".into();
    assert!(app.config_file().is_none());
    assert_eq!(app.config_feedback, Some(Err("Enter a file path.".into())));
}

#[test]
fn loading_again_undoes_a_reset() {
    let (mut app, _) = start(Some(config(false, Some("AA"))));
    assert!(app.reset_config().is_none());
    assert_eq!(app.ble_intent, BleIntent::Idle);
    assert!(app.config.ble.mac.is_none());
    assert!(app.load_config("my.toml", Ok(config(false, Some("AA")))).is_none());
    assert_eq!(app.ble_intent, BleIntent::Idle);
    assert_eq!(app.intent_since, 100);
    assert_eq!(app.config.ble.mac.as_deref(), Some("AA"));
    assert_eq!(app.ble_mac_text, "AA");
    assert!(!app.config.ble.enabled);
}

#[test]
fn a_disconnect_outlives_new_settings() {
    let (mut app, _) = start(Some(config(true, Some("AA"))));
    app.set_ble_intent(BleIntent::Idle, 200);
    // The defaults say to connect, at startup.
    assert!(app.reset_config().is_none());
    assert!(app.config.ble.enabled);
    assert_eq!(app.ble_intent, BleIntent::Idle);
    assert_eq!(app.intent_since, 200);
    assert!(app.load_config("my.toml", Ok(config(true, Some("BB")))).is_none());
    assert_eq!(app.ble_intent, BleIntent::Idle);
    assert_eq!(app.ble_mac_text, "BB");
}

#[test]
fn a_chase_goes_on_with_the_new_pin() {
    let (mut app, _) = start(Some(config(true, Some("AA"))));
    app.set_ble_intent(BleIntent::ConnectSleeping, 200);
    let command = app.load_config("my.toml", Ok(config(false, Some("BB"))));
    assert!(
        matches!(command, Some(BleCommand::Connect { mac: Some(m), chase: true }) if m == "BB")
    );
    assert_eq!(app.ble_intent, BleIntent::ConnectSleeping);
    assert_eq!(app.intent_since, 200);
    let command = app.apply_config(config(true, None));
    assert!(matches!(command, Some(BleCommand::Connect { mac: None, chase: true })));
}

#[test]
fn saving_settings_says_how_it_went() {
    let mut app = app();
    app.save_config("a", Ok(true));
    assert_eq!(app.config_feedback, Some(Ok("Created a".into())));
    app.save_config("a", Ok(false));
    assert_eq!(app.config_feedback, Some(Ok("Saved a".into())));
    app.save_config("a", Err("a: full".into()));
    assert_eq!(app.config_feedback, Some(Err("a: full".into())));
}

#[test]
fn radio_file_is_loaded_saved_and_restored() {
    let mut app = app();
    let path = app.radio_file().unwrap();
    assert_eq!(path, "RADIO.toml");
    app.load_radio(&path, Err("gone".into()));
    assert_eq!(app.radio_feedback, Some(Err("RADIO.toml: gone".into())));
    assert!(app.radio.is_none());
    app.save_radio(Ok(None), Ok(()));
    assert_eq!(app.radio_feedback, Some(Err("RADIO.toml: gone".into())));
    app.restore_radio("x.bak", "b/x.bak", Ok("a = 1".into()));
    assert!(app.radio.is_none());

    app.default_radio(&path, "[radio]\nsf = 7\n");
    assert_eq!(
        app.radio_feedback,
        Some(Ok("Default config ready. Press Save to write RADIO.toml".into()))
    );
    assert!(app.radio.as_ref().unwrap().dirty);
    app.default_radio(&path, "= broken");
    assert!(matches!(&app.radio_feedback, Some(Err(e)) if e.starts_with("RADIO.toml: ")));
    assert_eq!(app.radio.as_ref().unwrap().display_at("radio", "sf"), "7");

    app.radio_edit = RadioEdit::Confirm { section: "radio".into(), key: "sf".into() };
    app.load_radio(&path, Ok("[radio]\nsf = 9\n".into()));
    assert_eq!(app.radio_feedback, Some(Ok("Loaded RADIO.toml".into())));
    assert!(matches!(app.radio_edit, RadioEdit::Idle));
    assert!(!app.radio.as_ref().unwrap().dirty);

    app.restore_radio("x.bak", "b/x.bak", Ok("[radio]\nsf = 11\n".into()));
    assert_eq!(app.radio_feedback, Some(Ok("Restored x.bak (unsaved - press Save)".into())));
    assert!(app.radio.as_ref().unwrap().dirty);
    assert_eq!(app.radio.as_ref().unwrap().path, "RADIO.toml");
    app.restore_radio("x.bak", "b/x.bak", Err("unreadable".into()));
    assert_eq!(app.radio_feedback, Some(Err("b/x.bak: unreadable".into())));

    app.save_radio(Err("radio-backups: denied".into()), Ok(()));
    assert_eq!(app.radio_feedback, Some(Err("radio-backups: denied".into())));
    assert!(app.radio.as_ref().unwrap().dirty);
    app.save_radio(Ok(None), Err("full".into()));
    assert_eq!(app.radio_feedback, Some(Err("RADIO.toml: full".into())));
    app.save_radio(Ok(Some("R.1.bak".into())), Ok(()));
    assert_eq!(
        app.radio_feedback,
        Some(Ok("Saved. Backed up previous version as R.1.bak".into()))
    );
    assert!(!app.radio.as_ref().unwrap().dirty);
    app.save_radio(Ok(None), Ok(()));
    assert_eq!(app.radio_feedback, Some(Ok("Saved.".into())));
}

#[test]
fn compass_is_powered_for_heading_up_only() {
    let mut app = app();
    assert!(app.has_direction());
    assert_eq!(app.effective_heading(), None);
    assert_eq!(app.sync_compass_power(), Some(false));
    app.heading_up = true;
    assert_eq!(app.sync_compass_power(), Some(true));
    app.take_heading(90.0f32.to_bits());
    app.heading = Some(10.0f32.to_bits());
    assert_eq!(app.effective_heading(), Some(90.0f32.to_bits()));
    app.heading_up = false;
    assert_eq!(app.sync_compass_power(), Some(false));
    // The reading would go stale; the course over ground takes its place.
    assert_eq!(app.effective_heading(), Some(10.0f32.to_bits()));
    app.heading = None;
    app.compass_gone();
    assert!(!app.has_direction());
    assert_eq!(app.sync_compass_power(), None);
}

#[test]
fn tracks_are_decimated() {
    let mut app = app();
    let fix = |lat: f64, bearing: Option<f32>| GpsFix {
        pos: at(lat),
        bearing: bearing.map(f32::to_bits),
    };
    app.apply_gps_fix(fix(1.0, Some(5.0)), reading(f64::NAN, 1));
    app.apply_gps_fix(fix(1.1, None), reading(2.99, 2));
    assert_eq!(app.track.len(), 1);
    assert_eq!(app.current, Some(at(1.1)));
    assert_eq!(app.current_time, Some(Timestamp { secs: 2, nanos: 0 }));
    assert_eq!(app.heading, None);
    app.apply_gps_fix(fix(1.2, None), reading(3.0, 3));
    assert_eq!(app.track.len(), 2);
    assert_eq!(app.track[1].pos, at(1.2));
    assert_eq!(app.track[1].source, PointSource::Phone);
    assert_eq!(app.track[1].coord_text(), "at 3");
    app.config.track.min_distance = 0.0f64.to_bits();
    app.apply_gps_fix(fix(1.2, None), reading(0.0, 4));
    assert_eq!(app.track.len(), 3);
    assert!(!far_enough(&app.track, f64::NAN.to_bits(), 0));
}

#[test]
fn beacon_packets_move_the_beacon_when_they_have_a_fix() {
    let mut app = app();
    let packet = |fix: bool, lat: f64| PositionPacket {
        fix,
        pos: at(lat),
        sats: 7,
        speed: 1.5f32.to_bits(),
    };
    app.take_ble_event(BleEvent::Fix(packet(false, 1.0)), reading(9.0, 1), 0);
    assert_eq!(app.beacon, None);
    assert_eq!(app.beacon_packet, Some(packet(false, 1.0)));
    app.take_ble_event(BleEvent::Fix(packet(true, 1.0)), reading(0.0, 2), 0);
    app.take_ble_event(BleEvent::Fix(packet(true, 2.0)), reading(1.0, 3), 0);
    app.take_ble_event(BleEvent::Fix(packet(true, 3.0)), reading(8.0, 4), 0);
    assert_eq!(app.beacon, Some(at(3.0)));
    assert_eq!(app.beacon_time, Some(Timestamp { secs: 4, nanos: 0 }));
    let lats: Vec<u64> = app.beacon_track.iter().map(|p| p.pos.lat).collect();
    assert_eq!(lats, [1.0f64.to_bits(), 3.0f64.to_bits()]);
    assert_eq!(app.beacon_track[0].source, PointSource::Esp);
    assert!(app.track.is_empty());
}

#[test]
fn a_fresh_link_forgets_the_last_session() {
    let mut app = app();
    app.set_ble_intent(BleIntent::ConnectSleeping, 0);
    take(&mut app, BleEvent::Telemetry(TELEMETRY));
    take(&mut app, BleEvent::Settings(BOARD));
    take(&mut app, BleEvent::Connected(true));
    assert_eq!(app.connected_at, Some(500));
    assert_eq!((app.board_settings, app.telemetry), (None, None));
    take(&mut app, BleEvent::Telemetry(TELEMETRY));
    take(&mut app, BleEvent::Connected(false));
    assert!(!app.ble_connected);
    assert_eq!(app.connected_at, None);
    assert_eq!(app.telemetry, Some(TELEMETRY));
    // The intent outlives the link.
    assert_eq!(app.ble_intent, BleIntent::ConnectSleeping);
}

#[test]
fn inputs_open_on_what_the_board_is_set_to() {
    let mut app = app();
    take(&mut app, BleEvent::Settings(Settings { sleep_interval_s: 0, adv_window_s: 0, ..BOARD }));
    assert_eq!(app.ble_interval_text, "250");
    assert_eq!(app.sleep_interval_text, "5");
    assert_eq!(app.adv_window_text, "15");
    take(&mut app, BleEvent::SettingsUnsupported);
    assert!(app.settings_unsupported);
    assert_eq!(app.board_settings, None);
    take(&mut app, BleEvent::Settings(BOARD));
    assert!(!app.settings_unsupported);
    assert_eq!(app.sleep_interval_text, "30");
    assert_eq!(app.adv_window_text, "20");
    // A later report leaves what is half typed alone.
    app.sleep_interval_text = "4".into();
    let changed = Settings { sleep_interval_s: 60, notify_interval_ms: 9, ..BOARD };
    take(&mut app, BleEvent::Settings(changed));
    assert_eq!(app.sleep_interval_text, "4");
    assert_eq!(app.ble_interval_text, "250");
    assert_eq!(app.board_settings, Some(changed));
}

#[test]
fn one_write_waits_for_its_ack() {
    let mut app = app();
    app.ble_ack = Some(Ok("old".into()));
    let command = app.send_config(ConfigWrite::Flag { id: 3, on: true });
    assert!(matches!(
        command,
        BleCommand::Config(ConfigWrite::Flag { id: 3, on: true })
    ));
    assert!(app.ble_ack_pending);
    assert_eq!(app.ble_ack, None);
    take(&mut app, BleEvent::Status("busy".into()));
    take(&mut app, BleEvent::Log("line".into()));
    assert!(app.ble_ack_pending);
    assert_eq!(app.ble_status, "busy");
    assert_eq!(app.board_log.as_deref(), Some("line"));
    take(
        &mut app,
        BleEvent::Ack(Ack {
            id: SettingId::Power,
            status: AckStatus::Applied,
            value_u32: None,
        }),
    );
    assert!(!app.ble_ack_pending);
    assert_eq!(app.ble_ack, Some(Ok("Board applied: GPS/LoRa power".into())));
}

#[test]
fn boards_are_listed_once_each() {
    let mut app = app();
    let seen = |address: &str, rssi: i16| {
        BleEvent::Discovered(DiscoveredDevice {
            address: address.into(),
            name: None,
            rssi: Some(rssi),
        })
    };
    take(&mut app, seen("AA", -50));
    take(&mut app, seen("BB", -60));
    take(&mut app, seen("AA", -40));
    let list: Vec<(&str, Option<i16>)> =
        app.discovered.iter().map(|d| (d.address.as_str(), d.rssi)).collect();
    assert_eq!(list, [("AA", Some(-40)), ("BB", Some(-60))]);
}
