//! What the other pages decide and show.

use gps_gui_rs::app::pages::{
    field_heading, is_on_globe, lat_lon_words, page_items, AckLine, StatusLine,
};
use gps_gui_rs::app::{BoardDefaults, MyApp, Page, RadioEdit, Reading};
use gps_gui_rs::ble::{BleCommand, ConfigWrite, Position, Telemetry};
use gps_gui_rs::points::{PointFilter, PointSource, Timestamp, TrackPoint};
use gps_gui_rs::radio::EditVal;

fn app() -> MyApp {
    let defaults = BoardDefaults {
        update_interval_ms: 1000,
        esp_sleep_min_s: 5,
        esp_adv_default_s: 15,
    };
    MyApp::new(defaults, false, false, true, "c.toml".into(), None, 0).0
}

fn pos(lat: f64, lon: f64) -> Position {
    Position { lat: lat.to_bits(), lon: lon.to_bits() }
}

fn reading() -> Reading {
    Reading {
        coords: "c".into(),
        moved: 0,
        time: Timestamp { secs: 5, nanos: 0 },
    }
}

#[test]
fn pages_are_in_menu_order() {
    let labels: Vec<&str> = page_items().iter().map(|p| p.1).collect();
    assert_eq!(labels, ["Map", "Points", "Status", "Beacon", "Settings", "Radio"]);
    let mut app = app();
    assert!(!app.shows_page_toggle());
    assert!(app.shows_manual_bar());
    for (page, _) in page_items() {
        app.open_page(page);
        assert_eq!(app.page, page);
        assert_eq!(app.shows_page_toggle(), page != Page::MapView);
        assert_eq!(app.shows_manual_bar(), page == Page::MapView);
    }
    app.open_page(Page::MapView);
    app.live_gps = true;
    assert!(!app.shows_manual_bar());
}

#[test]
fn positions_are_typed_as_two_words() {
    let words = |s: &str| lat_lon_words(s);
    assert_eq!(words("51.4779, -0.0015"), Some(("51.4779".into(), "-0.0015".into())));
    assert_eq!(words("  1 \t 2,"), Some(("1".into(), "2".into())));
    assert_eq!(words("1,,2"), Some(("1".into(), "2".into())));
    assert_eq!(words("x y"), Some(("x".into(), "y".into())));
    assert_eq!(words(""), None);
    assert_eq!(words("1"), None);
    assert_eq!(words("1 2 3"), None);
}

#[test]
fn positions_must_be_on_the_globe() {
    assert!(is_on_globe(pos(90.0, -180.0)));
    assert!(is_on_globe(pos(-90.0, 180.0)));
    assert!(is_on_globe(pos(-0.0, 0.0)));
    assert!(!is_on_globe(pos(90.00001, 0.0)));
    assert!(!is_on_globe(pos(-91.0, 0.0)));
    assert!(!is_on_globe(pos(0.0, 180.5)));
    assert!(!is_on_globe(pos(0.0, f64::NEG_INFINITY)));
    assert!(!is_on_globe(pos(f64::NAN, 0.0)));
}

#[test]
fn a_typed_position_is_a_fix() {
    let mut app = app();
    assert!(!app.enter_position(None, reading()));
    assert!(app.manual_gps_bad);
    assert!(!app.enter_position(Some(pos(100.0, 0.0)), reading()));
    assert!(app.manual_gps_bad);
    assert!(app.track.is_empty());
    assert!(app.enter_position(Some(pos(1.0, 2.0)), reading()));
    assert!(!app.manual_gps_bad);
    assert_eq!(app.current, Some(pos(1.0, 2.0)));
    assert_eq!(app.track.len(), 1);
}

#[test]
fn points_page_lists_both_tracks() {
    let mut app = app();
    let point = |source: PointSource, secs: i64| TrackPoint {
        pos: pos(secs as f64, 0.0),
        coords: format!("{secs}.00000 0.00000"),
        source,
        time: Timestamp { secs, nanos: 0 },
    };
    app.track = vec![point(PointSource::Phone, 1), point(PointSource::Phone, 5)];
    app.beacon_track = vec![point(PointSource::Esp, 3)];
    let (points, rows) = app.points_page();
    assert_eq!(points.len(), 3);
    assert_eq!(rows, [1, 2, 0]);
    assert_eq!(MyApp::points_count(rows.len(), points.len()), "3 of 3 points");
    app.points_search = " ESP".into();
    assert_eq!(app.points_page().1, [2]);
    app.points_filter = PointFilter::Phone;
    assert!(app.points_page().1.is_empty());
    app.points_search = "5.".into();
    assert_eq!(app.points_page().1, [1]);
}

fn words(lines: &[StatusLine]) -> Vec<String> {
    lines
        .iter()
        .map(|l| match l {
            StatusLine::Heading(t) => format!("# {t}"),
            StatusLine::Flag(t, on) => format!("{t}: {on}"),
            StatusLine::Text(t) => t.clone(),
            StatusLine::Fixed(t) => format!("`{t}`"),
        })
        .collect()
}

const TELEMETRY: Telemetry = Telemetry {
    gps_fix: true,
    sd_ok: false,
    cfg_loaded: true,
    sats: 9,
    secs_since_rx: 12,
    last_rssi: -80,
    last_snr_cb: -5,
    rx_count: 100,
    tx_count: 7,
};

#[test]
fn status_page_reads_the_board() {
    let mut app = app();
    app.ble_connected = true;
    app.ble_status = "connected to AA".into();
    app.telemetry = Some(TELEMETRY);
    app.board_log = Some("boot ok".into());
    assert_eq!(
        words(&app.status_page()),
        [
            "# ESP32-C6 (BLE)",
            "Link: true",
            "connected to AA",
            "# GPS",
            "Fix: true",
            "Satellites: 9",
            "# LoRa",
            "Last RX: 12 s ago",
            "RSSI: -80 dBm   SNR: -0.05 dB",
            "RX: 100   TX: 7",
            "# WIO-E5",
            "SD logging: false",
            "Radio config: true",
            "# Last message",
            "`boot ok`"
        ]
    );
    app.telemetry = Some(Telemetry { last_rssi: 0, secs_since_rx: 0xFFFF, ..TELEMETRY });
    let lines = words(&app.status_page());
    assert!(lines.contains(&"Last RX: never".to_string()));
    assert!(!lines.iter().any(|l| l.contains("RSSI")));
}

#[test]
fn status_page_waits_for_telemetry() {
    let app = app();
    assert_eq!(
        words(&app.status_page()),
        [
            "# ESP32-C6 (BLE)",
            "Link: false",
            "idle",
            "No board telemetry yet.\nWaiting for the esp32c6-gps board (an esp32c3 beacon does not report it)."
        ]
    );
}

/// Hundredths of a decibel read as the division by a hundred does.
#[test]
fn signal_noise_ratio_has_two_decimals() {
    let mut app = app();
    for n in i16::MIN..=i16::MAX {
        if n % 7 != 0 && n.unsigned_abs() > 300 {
            continue;
        }
        app.telemetry = Some(Telemetry { last_snr_cb: n, ..TELEMETRY });
        let want = format!("RSSI: -80 dBm   SNR: {:.2} dB", n as f32 / 100.0);
        assert!(words(&app.status_page()).contains(&want), "{n}");
    }
}

#[test]
fn board_controls_take_one_write_at_a_time() {
    let mut app = app();
    assert!(!app.can_write());
    let write = ConfigWrite::Flag { id: 3, on: true };
    assert!(app.request_write(write).is_none());
    assert!(!app.ble_ack_pending);
    app.ble_connected = true;
    assert!(matches!(app.request_write(write), Some(BleCommand::Config(w)) if w == write));
    assert!(matches!(app.ack_line(), AckLine::Waiting));
    assert!(app.request_write(write).is_none());
    app.ble_ack_pending = false;
    assert!(matches!(app.ack_line(), AckLine::Nothing));
    app.ble_ack = Some(Err("no".into()));
    assert!(matches!(app.ack_line(), AckLine::Said(Err(e)) if e == "no"));
    app.ble_ack = Some(Ok("yes".into()));
    assert!(matches!(app.ack_line(), AckLine::Said(Ok(t)) if t == "yes"));
}

#[test]
fn typed_intervals_are_applied_or_refused() {
    let mut app = app();
    app.ble_connected = true;
    for bad in ["", "x", "1.5", "-1", "4294967296"] {
        app.ble_interval_text = bad.into();
        assert!(app.apply_interval().is_none());
        assert_eq!(app.ble_ack, Some(Err("Enter a whole number of milliseconds.".into())));
        assert!(!app.ble_ack_pending);
        app.sleep_interval_text = bad.into();
        assert!(app.apply_sleep_interval(9).is_none());
        assert_eq!(app.ble_ack, Some(Err("Enter a whole number of seconds.".into())));
        app.adv_window_text = bad.into();
        assert!(app.apply_adv_window(9).is_none());
    }
    app.ble_interval_text = " 250 ".into();
    assert!(matches!(
        app.apply_interval(),
        Some(BleCommand::Config(ConfigWrite::Interval(250)))
    ));
    assert!(app.ble_ack_pending);
    assert!(app.apply_interval().is_none());
    app.ble_ack_pending = false;
    app.sleep_interval_text = "0".into();
    assert!(matches!(
        app.apply_sleep_interval(9),
        Some(BleCommand::Config(ConfigWrite::Seconds { id: 9, secs: 0 }))
    ));
    app.ble_ack_pending = false;
    app.adv_window_text = "60".into();
    assert!(matches!(
        app.apply_adv_window(8),
        Some(BleCommand::Config(ConfigWrite::Seconds { id: 8, secs: 60 }))
    ));
    app.ble_ack_pending = false;
    app.ble_connected = false;
    assert!(app.apply_adv_window(8).is_none());
}

#[test]
fn mac_input_pins_or_unpins() {
    let mut app = app();
    app.ble_mac_text = " aa:bb ".into();
    app.edit_mac();
    assert_eq!(app.config.ble.mac.as_deref(), Some("aa:bb"));
    app.ble_mac_text = "  ".into();
    app.edit_mac();
    assert_eq!(app.config.ble.mac, None);
}

#[test]
fn radio_fields_are_edited_one_at_a_time() {
    let mut app = app();
    app.load_radio("R.toml", Ok("top = 1\n[radio]\nsf = 7 # keep\n[gps]\non = true\n".into()));
    assert_eq!(app.radio_save_label(), "Save");
    app.press_edit("radio", "sf");
    assert!(matches!(&app.radio_edit, RadioEdit::Confirm { section, key } if section == "radio" && key == "sf"));
    assert_eq!(MyApp::edit_question("sf"), "Edit \"sf\"?");
    app.press_edit("gps", "on");
    assert!(matches!(&app.radio_edit, RadioEdit::Confirm { key, .. } if key == "sf"));
    app.confirm_edit();
    assert!(matches!(&app.radio_edit, RadioEdit::Active { key, val: EditVal::Int(7), .. } if key == "sf"));
    app.press_edit("gps", "on");
    app.confirm_edit();
    if let RadioEdit::Active { val, .. } = &mut app.radio_edit {
        *val = EditVal::Int(12);
    }
    app.set_edit();
    assert!(matches!(app.radio_edit, RadioEdit::Idle));
    let doc = app.radio.as_ref().unwrap();
    assert_eq!(doc.to_text(), "top = 1\n[radio]\nsf = 12 # keep\n[gps]\non = true\n");
    assert_eq!(app.radio_save_label(), "Save *");
    app.press_edit("gps", "on");
    app.cancel_edit();
    assert!(matches!(app.radio_edit, RadioEdit::Idle));
    app.set_edit();
    assert_eq!(app.radio.as_ref().unwrap().display_at("gps", "on"), "true");
}

#[test]
fn editing_without_a_file_starts_from_nothing() {
    let mut app = app();
    app.press_edit("a", "b");
    app.confirm_edit();
    assert!(matches!(&app.radio_edit, RadioEdit::Active { val: EditVal::Str(s), .. } if s.is_empty()));
    app.set_edit();
    assert!(app.radio.is_none());
    assert_eq!(app.radio_save_label(), "Save");
}

#[test]
fn fields_are_grouped_by_section() {
    let mut app = app();
    app.load_radio("R.toml", Ok("t = 1\nu = 2\n[radio]\nsf = 7\n[gps]\non = true\n".into()));
    let fields = &app.radio.as_ref().unwrap().fields;
    let heads: Vec<Option<String>> = (0..fields.len()).map(|i| field_heading(fields, i)).collect();
    assert_eq!(
        heads,
        [Some("general".to_string()), None, Some("radio".into()), Some("gps".into())]
    );
}
