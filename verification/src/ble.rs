//! The BLE side of the ESP32 GPS beacon: what the worker tells the UI, what the
//! UI asks of the worker, and how one setting is written to the board.
//!
//! Events flow UI-ward (fixes, acks, status), commands flow worker-ward
//! (connect, config writes). How a packet's bytes are laid out is the board's
//! wire protocol; here a packet is what it says.

use vstd::prelude::*;

verus! {

/// A place on the map: latitude and longitude in decimal degrees, as
/// double-precision bit patterns.
#[derive(Clone, Copy, PartialEq, Eq, Debug, Structural)]
pub struct Position {
    pub lat: u64,
    pub lon: u64,
}

/// A position packet from the beacon.
#[derive(Clone, Copy, PartialEq, Eq, Debug, Structural)]
pub struct PositionPacket {
    /// The packet carries a fix; without one its position means nothing.
    pub fix: bool,
    pub pos: Position,
    /// Satellites in use.
    pub sats: u8,
    /// Speed over ground in m/s, as a single-precision bit pattern.
    pub speed: u32,
}

/// Which setting an ack is about.
#[derive(Clone, Copy, PartialEq, Eq, Debug, Structural)]
pub enum SettingId {
    /// The position notify interval, in milliseconds.
    UpdateInterval,
    /// The GPS/LoRa power rail.
    Power,
    /// WIO-E5 sleep.
    WioSleep,
    /// GPS backup mode.
    GpsSleep,
    /// The wake-check interval, in seconds.
    EspSleep,
    /// A setting this build has no name for.
    Other,
}

/// How a config write went.
#[derive(Clone, Copy, PartialEq, Eq, Debug, Structural)]
pub enum AckStatus {
    Applied,
    UnknownId,
    BadValue,
    /// The ESP got an error from the WIO-E5.
    WioError,
    /// The ESP got no reply from the WIO-E5.
    WioTimeout,
    BadState,
    /// A status this build has no name for.
    Other(u8),
}

/// A config ack: the device confirmed (or rejected) a setting.
#[derive(Clone, Copy, PartialEq, Eq, Debug, Structural)]
pub struct Ack {
    pub id: SettingId,
    pub status: AckStatus,
    /// The value the device applied, where it names one.
    pub value_u32: Option<u32>,
}

/// Board telemetry (LoRa link, GPS, SD) from the esp32c6-gps board.
#[derive(Clone, Copy, PartialEq, Eq, Debug, Structural)]
pub struct Telemetry {
    pub gps_fix: bool,
    pub sd_ok: bool,
    pub cfg_loaded: bool,
    pub sats: u8,
    /// Seconds since the last packet was received; all ones for never.
    pub secs_since_rx: u16,
    pub last_rssi: i16,
    /// Signal-to-noise ratio of the last packet, in hundredths of a decibel.
    pub last_snr_cb: i16,
    pub rx_count: u32,
    pub tx_count: u32,
}

/// The board's own view of its power and sleep settings.
#[derive(Clone, Copy, PartialEq, Eq, Debug, Structural)]
pub struct Settings {
    pub pwr_en: bool,
    pub notify_interval_ms: u32,
    pub sleep_interval_s: u32,
    pub adv_window_s: u32,
}

/// One board seen while scanning, for the Beacon page's device picker.
///
/// Every board runs the same firmware and so advertises the same name, which
/// makes `name` near-useless for telling two apart - the address is the
/// identity, and the readable label comes from the nicknames in the app config.
/// `rssi` is what actually distinguishes them in the field: the board in your
/// hand is the loud one.
#[derive(Clone, Debug, PartialEq)]
pub struct DiscoveredDevice {
    pub address: String,
    pub name: Option<String>,
    pub rssi: Option<i16>,
}

/// Worker -> UI.
pub enum BleEvent {
    /// Human-readable connection state for the Beacon page.
    Status(String),
    /// A board seen during a discovery scan. Sent repeatedly for the same
    /// board as the scan runs, so the signal strength stays current; the UI
    /// keys them by address.
    Discovered(DiscoveredDevice),
    /// Connection state changed; gates the config controls.
    Connected(bool),
    /// A decoded position packet from the beacon.
    Fix(PositionPacket),
    /// A config ack: the device confirmed (or rejected) a setting.
    Ack(Ack),
    /// Board telemetry (LoRa link, GPS, SD) from the esp32c6-gps board.
    Telemetry(Telemetry),
    /// The latest WIO status/log line (ASCII) relayed by the board.
    Log(String),
    /// The board's own view of its power and sleep settings, read on connect
    /// and notified on every change - including changes the board makes by
    /// itself, such as clamping an interval. This, not the UI, is the
    /// authority on what the board is set to.
    Settings(Settings),
    /// The settings blob did not decode: the board's layout version is newer
    /// than this build knows. Its settings are unreadable, not defaulted.
    SettingsUnsupported,
}

/// UI -> worker.
pub enum BleCommand {
    /// Start (or restart) connecting. `mac` pins a specific device; `None`
    /// scans for the first device advertising the GPS service.
    ///
    /// `chase` says the board may be asleep, advertising for only a short
    /// window per wake (configurable on the board, seconds rather than
    /// minutes). That rules out bounded connect attempts, which can keep
    /// missing a window they are out of phase with, so a chasing transport
    /// scans continuously instead - always listening, whenever the window
    /// happens to open.
    Connect { mac: Option<String>, chase: bool },
    /// Scan without connecting, reporting every board that answers as a
    /// [`BleEvent::Discovered`], until a `Connect` or `Disconnect` arrives.
    ///
    /// Separate from the scan a `Connect` does because the two want opposite
    /// things: connecting takes the first board that matches and stops, while
    /// the picker needs to keep looking so a board that advertises late still
    /// turns up in the list. Only one board is ever connected at a time, so
    /// this drops any live link first.
    Scan,
    /// Write one setting to the config characteristic. The device answers on
    /// the ack characteristic with the value it actually applied.
    Config(ConfigWrite),
    /// Drop the connection and stay idle until the next `Connect`.
    Disconnect,
}

/// One config-characteristic write, `[id, len, value...]`. The notify interval
/// and the esp32c6-gps board ids share the characteristic and differ only in
/// the id and the width of the value.
#[derive(Clone, Copy, PartialEq, Eq, Debug, Structural)]
pub enum ConfigWrite {
    /// Position notify interval in ms.
    Interval(u32),
    /// A board on/off setting: the power rail, WIO sleep or GPS backup mode.
    Flag { id: u8, on: bool },
    /// A board interval in seconds: the wake-check cadence.
    Seconds { id: u8, secs: u32 },
}

/// The four bytes of a number, lowest first.
pub open spec fn le_bytes(n: u32) -> Seq<u8> {
    seq![
        (n as int % 0x100) as u8,
        (n as int / 0x100 % 0x100) as u8,
        (n as int / 0x1_0000 % 0x100) as u8,
        (n as int / 0x100_0000) as u8,
    ]
}

/// `[id, len, value...]` for a setting.
pub open spec fn framed(id: u8, value: Seq<u8>) -> Seq<u8> {
    seq![id, value.len() as u8] + value
}

/// The number that four bytes spell, lowest first.
pub open spec fn le_number(bytes: Seq<u8>) -> int {
    bytes[0] + 0x100 * bytes[1] + 0x1_0000 * bytes[2] + 0x100_0000 * bytes[3]
}

impl ConfigWrite {
    /// The encoded write and its length. `interval` is the wire protocol's own
    /// encoding of the notify interval.
    pub fn encode(&self, interval: impl Fn(u32) -> ([u8; 6], usize)) -> (r: ([u8; 6], usize))
        requires
            forall|ms: u32| call_requires(interval, (ms,)),
        ensures
            match *self {
                ConfigWrite::Interval(ms) => call_ensures(interval, (ms,), r),
                ConfigWrite::Flag { id, on } => r.1 == 3 && r.0@.take(3) == framed(
                    id,
                    seq![if on { 1u8 } else { 0u8 }],
                ) && r.0@.skip(3) == seq![0u8, 0, 0],
                ConfigWrite::Seconds { id, secs } => r.1 == 6 && r.0@ == framed(id, le_bytes(secs)),
            },
    {
        match *self {
            ConfigWrite::Interval(ms) => interval(ms),
            ConfigWrite::Flag { id, on } => {
                let v: u8 = if on {
                    1
                } else {
                    0
                };
                let b: [u8; 6] = [id, 1, v, 0, 0, 0];
                assert(b@.take(3) =~= framed(id, seq![if on { 1u8 } else { 0u8 }]));
                assert(b@.skip(3) =~= seq![0u8, 0, 0]);
                (b, 3)
            },
            ConfigWrite::Seconds { id, secs } => {
                let b: [u8; 6] = [
                    id,
                    4,
                    (secs % 0x100) as u8,
                    (secs / 0x100 % 0x100) as u8,
                    (secs / 0x1_0000 % 0x100) as u8,
                    (secs / 0x100_0000) as u8,
                ];
                assert(b@ =~= framed(id, le_bytes(secs)));
                (b, 6)
            },
        }
    }
}

/// The length byte tells how many value bytes follow, and the value of an
/// interval is the interval: no two writes of one kind share their bytes.
pub proof fn framing_reads_back(id: u8, secs: u32)
    ensures
        framed(id, le_bytes(secs))[0] == id,
        framed(id, le_bytes(secs))[1] == framed(id, le_bytes(secs)).len() - 2,
        le_number(framed(id, le_bytes(secs)).skip(2)) == secs,
{
    assert(framed(id, le_bytes(secs)).skip(2) =~= le_bytes(secs));
}

/// The event that describes a settings blob. A blob that fails to decode is a
/// version mismatch, which is its own event rather than a silent fall back to
/// defaults the board never reported.
pub fn settings_event(decoded: Option<Settings>) -> (r: BleEvent)
    ensures
        r == match decoded {
            Some(s) => BleEvent::Settings(s),
            None => BleEvent::SettingsUnsupported,
        },
{
    match decoded {
        Some(s) => BleEvent::Settings(s),
        None => BleEvent::SettingsUnsupported,
    }
}

} // verus!
