//! The beacon's config writes and settings.

use gps_gui_rs::ble::{settings_event, BleEvent, ConfigWrite, Settings};

/// Ids of board settings, as the wire protocol numbers them.
const CFG_PWR_EN: u8 = 0x10;
const CFG_WIO_SLEEP: u8 = 0x11;
const CFG_ESP_SLEEP_S: u8 = 0x13;

/// The wire protocol's encoding of the notify interval.
fn encode_interval(ms: u32) -> ([u8; 6], usize) {
    let v = ms.to_le_bytes();
    ([0x01, 4, v[0], v[1], v[2], v[3]], 6)
}

/// The board parses `[id, len, value...]`, so the framing is what has to
/// be right - a wrong length byte is read as a different value entirely.
#[test]
fn flag_and_seconds_framing() {
    let (b, n) = ConfigWrite::Flag { id: CFG_PWR_EN, on: true }.encode(encode_interval);
    assert_eq!(&b[..n], &[CFG_PWR_EN, 1, 1]);

    let (b, n) = ConfigWrite::Flag { id: CFG_WIO_SLEEP, on: false }.encode(encode_interval);
    assert_eq!(&b[..n], &[CFG_WIO_SLEEP, 1, 0]);

    // 300 s = 0x012C, little endian.
    let (b, n) = ConfigWrite::Seconds { id: CFG_ESP_SLEEP_S, secs: 300 }.encode(encode_interval);
    assert_eq!(&b[..n], &[CFG_ESP_SLEEP_S, 4, 0x2C, 0x01, 0, 0]);
}

#[test]
fn interval_matches_gps_proto() {
    let (mine, n) = ConfigWrite::Interval(1500).encode(encode_interval);
    let (theirs, m) = encode_interval(1500);
    assert_eq!((&mine[..n], n), (&theirs[..m], m));
}

#[test]
fn seconds_read_back() {
    for secs in [0, 1, 255, 256, 65_535, 65_536, 0x0102_0304, u32::MAX] {
        let (b, n) = ConfigWrite::Seconds { id: 9, secs }.encode(encode_interval);
        assert_eq!(n, 6);
        assert_eq!(b[1] as usize, n - 2);
        assert_eq!(u32::from_le_bytes([b[2], b[3], b[4], b[5]]), secs);
    }
}

#[test]
fn settings_event_rejects_a_newer_layout() {
    let good = Settings {
        pwr_en: true,
        sleep_interval_s: 30,
        notify_interval_ms: 0,
        adv_window_s: 0,
    };
    assert!(matches!(
        settings_event(Some(good)),
        BleEvent::Settings(s) if s == good
    ));

    // A blob of a newer layout does not decode.
    assert!(matches!(settings_event(None), BleEvent::SettingsUnsupported));
}
