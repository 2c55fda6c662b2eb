//! The application's state and the core update logic: everything the pages read
//! or write, and what each event, button and file does to it.
//!
//! The state is plain; drawing it, the channels and the files belong to whoever
//! runs it. A function that asks something of the BLE worker returns the command
//! to send.

pub mod laws;
pub mod map;
pub mod pages;

use crate::ble::{
    Ack, AckStatus, BleCommand, BleEvent, ConfigWrite, DiscoveredDevice, Position, PositionPacket,
    SettingId, Settings, Telemetry,
};
use crate::config::{is_default_config, AppConfig};
use crate::document::parsed_document;
use crate::durations::{secs_phrase, secs_text};
use crate::gps::GpsFix;
use crate::points::{PointFilter, PointSource, Timestamp, TrackPoint};
use crate::radio::{all_fields, listed, EditVal, RadioDoc};
use crate::reals::{at_least, no_less};
use crate::text::{
    copy_opt, decimal, decimal_text, joined, joined3, opt_text, same, trim, trimmed,
};
use crate::tiles::MapLayer;
use vstd::prelude::*;

verus! {

/// The name of a config setting, for the ack line.
pub open spec fn named_setting(id: SettingId) -> Seq<char> {
    match id {
        SettingId::UpdateInterval => "notify interval"@,
        SettingId::Power => "GPS/LoRa power"@,
        SettingId::WioSleep => "WIO-E5 sleep"@,
        SettingId::GpsSleep => "GPS backup mode"@,
        SettingId::EspSleep => "wake-check interval"@,
        SettingId::Other => "setting"@,
    }
}

/// The name of a config setting, for the ack line.
fn setting_name(id: SettingId) -> (r: &'static str)
    ensures
        r@ == named_setting(id),
{
    match id {
        SettingId::UpdateInterval => "notify interval",
        SettingId::Power => "GPS/LoRa power",
        SettingId::WioSleep => "WIO-E5 sleep",
        SettingId::GpsSleep => "GPS backup mode",
        SettingId::EspSleep => "wake-check interval",
        SettingId::Other => "setting",
    }
}

/// A byte as two hexadecimal digits after `0x`.
pub open spec fn hex_byte(n: u8) -> Seq<char> {
    seq![
        '0',
        'x',
        crate::config::hex_char(n as int / 16),
        crate::config::hex_char(n as int % 16),
    ]
}

fn hex_byte_text(n: u8) -> (r: String)
    ensures
        r@ == hex_byte(n),
{
    let mut r = String::new();
    r.push('0');
    r.push('x');
    r.push(crate::config::hex_letter(n / 16));
    r.push(crate::config::hex_letter(n % 16));
    assert(r@ =~= hex_byte(n));
    r
}

/// What a message says: good news or bad.
pub open spec fn said(message: Result<String, String>) -> Result<Seq<char>, Seq<char>> {
    match message {
        Ok(text) => Ok(text@),
        Err(text) => Err(text@),
    }
}

/// What an optional message says.
pub open spec fn feedback(
    message: Option<Result<String, String>>,
) -> Option<Result<Seq<char>, Seq<char>>> {
    match message {
        Some(m) => Some(said(m)),
        None => None,
    }
}

/// What the board said about a config write.
pub open spec fn ack_said(ack: Ack) -> Result<Seq<char>, Seq<char>> {
    let name = named_setting(ack.id);
    let applied = match ack.value_u32 {
        Some(n) => n,
        None => 0,
    };
    match ack.status {
        AckStatus::Applied => Ok(
            match ack.id {
                SettingId::UpdateInterval => "Board applied: notify interval "@ + decimal(
                    applied as nat,
                ) + " ms"@,
                SettingId::EspSleep => if applied == 0 {
                    "Board applied: sleep disabled"@
                } else {
                    "Board applied: wake check every "@ + secs_phrase(applied)
                },
                _ => "Board applied: "@ + name,
            },
        ),
        AckStatus::UnknownId => Err(
            "Board rejected: it does not know the "@ + name + " setting"@,
        ),
        AckStatus::BadValue => Err("Board rejected: bad value for "@ + name),
        AckStatus::WioError => Err(
            "The board could not reach the WIO-E5 to set "@ + name + " (link error)."@,
        ),
        AckStatus::WioTimeout => Err(
            "The board could not reach the WIO-E5 to set "@ + name + " (no reply)."@,
        ),
        AckStatus::BadState => Err(
            "Board rejected "@ + name + ": not valid in its current state"@,
        ),
        AckStatus::Other(status) => Err(
            "Board rejected "@ + name + ": status "@ + hex_byte(status),
        ),
    }
}

/// What the board said about the last config write. On success this reports
/// the value it actually applied, which for the intervals may be a clamped
/// version of what was asked for. The on/off settings ack without a value;
/// their new state arrives in the settings blob instead.
pub fn ack_message(ack: &Ack) -> (r: Result<String, String>)
    ensures
        said(r) == ack_said(*ack),
{
    let name = setting_name(ack.id);
    let applied: u32 = match ack.value_u32 {
        Some(n) => n,
        None => 0,
    };
    match ack.status {
        AckStatus::Applied => Ok(
            match ack.id {
                SettingId::UpdateInterval => joined3(
                    "Board applied: notify interval ",
                    decimal_text(applied as u64).as_str(),
                    " ms",
                ),
                SettingId::EspSleep => if applied == 0 {
                    "Board applied: sleep disabled".to_owned()
                } else {
                    joined("Board applied: wake check every ", secs_text(applied).as_str())
                },
                _ => joined("Board applied: ", name),
            },
        ),
        AckStatus::UnknownId => Err(
            joined3("Board rejected: it does not know the ", name, " setting"),
        ),
        AckStatus::BadValue => Err(joined("Board rejected: bad value for ", name)),
        // Not a rejected value: the ESP could not reach the WIO-E5 over the
        // UART link between them, so the setting never got there.
        AckStatus::WioError => Err(
            joined3("The board could not reach the WIO-E5 to set ", name, " (link error)."),
        ),
        AckStatus::WioTimeout => Err(
            joined3("The board could not reach the WIO-E5 to set ", name, " (no reply)."),
        ),
        AckStatus::BadState => Err(
            joined3("Board rejected ", name, ": not valid in its current state"),
        ),
        AckStatus::Other(status) => {
            let mut r = joined3("Board rejected ", name, ": status ");
            r.append(hex_byte_text(status).as_str());
            Err(r)
        },
    }
}

/// What the user last told the BLE worker to do. Explicit rather than derived
/// from the config, because "leave the board alone" is a real thing to want:
/// the board only deep-sleeps while nothing is connected, so an app that
/// always reconnects keeps it awake and its sleep interval never does
/// anything. Disconnect is how you let it sleep.
#[derive(Clone, Copy, PartialEq, Eq, Debug, Structural)]
pub enum BleIntent {
    /// Stay off the air until asked. Nothing reconnects on its own.
    Idle,
    /// Connect, going straight to a pinned MAC when there is one.
    Connect,
    /// Connect expecting the board to be asleep: scan continuously so a wake
    /// window cannot be missed. Costs more radio time, so it is not the
    /// default.
    ConnectSleeping,
}

/// Which screen is shown. The page menu switches between them.
#[derive(Clone, Copy, PartialEq, Eq, Debug, Structural)]
pub enum Page {
    /// The interactive map with the position marker and track.
    MapView,
    /// A plain read-out of the current latitude and longitude.
    Data,
    /// Searchable list of all recorded GPS points.
    Points,
    /// Board health for the esp32c6-gps board (ESP/WIO/GPS/LoRa).
    Status,
    /// The BLE beacon: the link, and the board's own power and sleep settings.
    Beacon,
    /// The app's own settings, from the TOML config file (marker colors,
    /// overlay sizes, distance read-out, track recording, offline maps).
    Settings,
    /// Viewing and editing the WIO-E5 RADIO.TOML (radio, mesh, beacon, GPS).
    Radio,
}

/// Per-field edit flow on the Radio page. Only one field is in flight at a time:
/// the pencil opens the confirm popup, confirming unlocks the typed input, and
/// the check/x commit or discard.
pub enum RadioEdit {
    /// No field is being edited.
    Idle,
    /// The confirm popup is open for this field (Edit / Cancel).
    Confirm { section: String, key: String },
    /// The field is unlocked with a typed input plus a check and an x.
    Active { section: String, key: String, val: EditVal },
}

impl Default for RadioEdit {
    fn default() -> (r: Self)
        ensures
            r is Idle,
    {
        RadioEdit::Idle
    }
}

/// A place on the screen, its coordinates as single-precision bit patterns.
#[derive(Clone, Copy, PartialEq, Eq, Debug, Structural)]
pub struct Spot {
    pub x: u32,
    pub y: u32,
}

/// Box-selection state for the offline region download on the map page.
#[derive(Clone, Copy, PartialEq, Eq, Debug, Structural)]
pub enum RegionSelect {
    /// Not selecting; the map behaves normally.
    Inactive,
    /// Waiting for / tracking the box drag. Panning is disabled so the drag
    /// draws a box instead of moving the map.
    Picking { start: Option<Spot>, current: Option<Spot> },
    /// Box chosen; the confirm panel is shown over the map.
    Confirm { a: Position, b: Position, max_zoom: u8 },
}

/// A map marker the user can double-click/tap to inspect.
#[derive(Clone, Copy, PartialEq, Eq, Debug, Structural)]
pub enum MarkerKind {
    /// The phone / manual position dot.
    You,
    /// The BLE GPS beacon.
    Beacon,
}

impl MarkerKind {
    /// What the marker is called.
    pub open spec fn named(self) -> Seq<char> {
        match self {
            MarkerKind::You => "You"@,
            MarkerKind::Beacon => "Beacon"@,
        }
    }

    /// What the marker is called.
    pub fn label(self) -> (r: &'static str)
        ensures
            r@ == self.named(),
    {
        match self {
            MarkerKind::You => "You",
            MarkerKind::Beacon => "Beacon",
        }
    }
}

/// The application's state.
pub struct MyApp {
    /// Which tile layer is currently drawn.
    pub layer: MapLayer,
    /// A live GPS source is wired up (Android GNSS). Without one, as on
    /// desktop, the manual position bar is shown instead.
    pub live_gps: bool,
    /// Device-facing compass, when the platform has one (Android only): whether
    /// its sensor was last asked for. The sensor is powered only while
    /// heading-up needs it.
    pub compass: Option<bool>,
    pub current: Option<Position>,
    /// When the current position was last updated, for the marker info popup.
    pub current_time: Option<Timestamp>,
    /// Course over ground from the GPS fix, in degrees, as a single-precision
    /// bit pattern.
    pub heading: Option<u32>,
    /// Device-facing heading from the compass sensor, likewise.
    pub compass_heading: Option<u32>,
    /// When set, the map is rotated so the current heading points up.
    pub heading_up: bool,
    /// Tracking mode: index into the available beacons of the one being kept in
    /// frame (user near the bottom, beacon near the top). `None` is off. The
    /// track button cycles it.
    pub tracking_beacon: Option<usize>,
    pub track: Vec<TrackPoint>,
    /// Live position of the BLE beacon, so the distance line tracks the real
    /// device.
    pub beacon: Option<Position>,
    /// When the beacon position was last updated, for the marker info popup.
    pub beacon_time: Option<Timestamp>,
    /// The last full packet from the beacon (satellites, speed, ...).
    pub beacon_packet: Option<PositionPacket>,
    /// Every beacon position recorded, for the path drawing and points list.
    pub beacon_track: Vec<TrackPoint>,
    /// Boards seen while scanning, keyed by address, for the device picker.
    pub discovered: Vec<DiscoveredDevice>,
    /// Last BLE status line, for the Beacon page.
    pub ble_status: String,
    pub ble_connected: bool,
    /// Notify-interval input on the Beacon page.
    pub ble_interval_text: String,
    /// Result of the last config write: device ack (green) or error (red).
    pub ble_ack: Option<Result<String, String>>,
    /// A config write is in flight and the ack has not arrived yet.
    pub ble_ack_pending: bool,
    /// Latest board telemetry (esp32c6-gps), for the Status page.
    pub telemetry: Option<Telemetry>,
    /// Latest WIO status/log line relayed by the board.
    pub board_log: Option<String>,
    /// The board's own power and sleep settings, as it last reported them.
    /// The controls read this rather than any local copy: the board is the
    /// authority and changes these by itself (clamping an interval).
    pub board_settings: Option<Settings>,
    /// The board's settings layout is newer than this build can decode, so
    /// its settings are unknown rather than defaulted.
    pub settings_unsupported: bool,
    /// What the app is currently asking the BLE worker to do. Session state:
    /// the config's master switch seeds it at startup and nothing writes it
    /// back, so a Disconnect lasts until the next launch rather than becoming a
    /// setting.
    pub ble_intent: BleIntent,
    /// When `ble_intent` last changed, on the caller's clock, for the "trying
    /// for ..." read-out.
    pub intent_since: u64,
    /// When the current connection came up, on the caller's clock. The GPS/LoRa
    /// rail only powers on once a central connects, so telemetry is
    /// legitimately empty for the first seconds.
    pub connected_at: Option<u64>,
    /// Wake-check interval input (seconds) on the Beacon page.
    pub sleep_interval_text: String,
    /// Advertising-window input (seconds) on the Beacon page.
    pub adv_window_text: String,
    /// Which screen is currently shown.
    pub page: Page,
    /// Loaded configuration (marker colors, BLE settings).
    pub config: AppConfig,
    /// The config-file path typed on the Settings page.
    pub config_path: String,
    /// Result of the last load/save: `Ok` message (green) or error (red).
    pub config_feedback: Option<Result<String, String>>,
    /// Text buffer behind the `[ble] mac` input. Empty means "scan by service",
    /// which is what an unpinned device says.
    pub ble_mac_text: String,
    /// The WIO-E5 RADIO.TOML being edited on the Radio page, once loaded.
    pub radio: Option<RadioDoc>,
    /// The RADIO.TOML path typed on the Radio page.
    pub radio_path: String,
    /// Result of the last radio load/save: `Ok` message (green) or error (red).
    pub radio_feedback: Option<Result<String, String>>,
    /// Per-field edit flow on the Radio page.
    pub radio_edit: RadioEdit,
    /// Tiles are cached to disk, which offline region downloads need.
    pub cached: bool,
    /// Box-selection state for the offline region download.
    pub select: RegionSelect,
    /// An offline tile download is running, or has just finished.
    pub downloading: bool,
    /// Search query on the points page.
    pub points_search: String,
    /// Source filter on the points page.
    pub points_filter: PointFilter,
    /// Text in the manual position bar (shown only without a live GPS source).
    pub manual_gps_text: String,
    /// The last manual position entry failed to parse.
    pub manual_gps_bad: bool,
    /// Marker whose info popup (name + time since last update) is shown, set by
    /// double-clicking/tapping a marker on the map.
    pub selected_marker: Option<MarkerKind>,
    /// The center button's marker list is open (held/right-clicked the button).
    /// A plain tap centers on you instead, without ever opening this.
    pub center_menu: bool,
}

/// The values of the board's wire protocol that inputs start out with.
#[derive(Clone, Copy, PartialEq, Eq, Debug, Structural)]
pub struct BoardDefaults {
    /// The notify interval of an unconfigured board, in milliseconds.
    pub update_interval_ms: u32,
    /// The shortest sleep the board takes, in seconds.
    pub esp_sleep_min_s: u32,
    /// The advertising window of an unconfigured board, in seconds.
    pub esp_adv_default_s: u32,
}

/// Config file loaded at startup and written back by the Settings page, unless
/// another path is typed there.
pub open spec fn default_config_name() -> Seq<char> {
    "gps-config.toml"@
}

/// Where the config file lives unless the Settings page is pointed elsewhere:
/// beside the tile cache, which on Android is the app's private data directory
/// (the working directory there is not writable, so a bare filename could be
/// read but never saved). On desktop the cache is a relative directory, which
/// leaves the plain filename in the working directory.
///
/// `parent` is the directory that the tile cache is in, and `beside` the
/// filename's path in that directory.
pub fn default_config_path(parent: Option<&str>, beside: &str) -> (r: String)
    ensures
        r@ == match parent {
            Some(dir) => if dir@.len() > 0 {
                beside@
            } else {
                default_config_name()
            },
            None => default_config_name(),
        },
{
    match parent {
        Some(dir) => if !dir.is_empty() {
            beside.to_owned()
        } else {
            "gps-config.toml".to_owned()
        },
        None => "gps-config.toml".to_owned(),
    }
}

/// A command asks the worker for what the user intends, of the pinned device.
pub open spec fn asks_for(command: BleCommand, intent: BleIntent, mac: Option<Seq<char>>) -> bool {
    match intent {
        BleIntent::Idle => command is Disconnect,
        BleIntent::Connect => command matches BleCommand::Connect { mac: m, chase } && opt_text(m)
            == mac && !chase,
        BleIntent::ConnectSleeping => command matches BleCommand::Connect { mac: m, chase }
            && opt_text(m) == mac && chase,
    }
}

/// A command that goes with new settings: the connection that the user intends is
/// asked for again, of the device that is pinned now, and nothing is where the
/// link is to be left alone.
pub open spec fn goes_along(
    command: Option<BleCommand>,
    intent: BleIntent,
    mac: Option<Seq<char>>,
) -> bool {
    match command {
        Some(command) => intent != BleIntent::Idle && asks_for(command, intent, mac),
        None => intent == BleIntent::Idle,
    }
}

/// What the settings ask for at startup: connect, unless the master switch is
/// off.
pub open spec fn seeded_intent(config: AppConfig) -> BleIntent {
    if config.ble.enabled {
        BleIntent::Connect
    } else {
        BleIntent::Idle
    }
}

/// The text of an optional text, empty where there is none.
pub open spec fn text_or_empty(o: Option<String>) -> Seq<char> {
    match o {
        Some(s) => s@,
        None => Seq::empty(),
    }
}

/// The state after settings are adopted: the MAC input follows them, and what
/// the user intends stays as it was.
pub open spec fn adopted(before: MyApp, after: MyApp, config: AppConfig) -> bool {
    &&& after == (MyApp { config, ble_mac_text: after.ble_mac_text, ..before })
    &&& after.ble_mac_text@ == text_or_empty(config.ble.mac)
}

/// How long the app has been trying, in seconds as they are shown. A wait that
/// just began counts as one second: nothing would read as "off".
pub open spec fn shown_wait(elapsed: u64) -> u32 {
    let secs = (elapsed as int % 0x1_0000_0000) as u32;
    if secs == 0 {
        1
    } else {
        secs
    }
}

/// What the app is doing about the link.
pub open spec fn intent_phrase(intent: BleIntent, connected: bool, elapsed: u64) -> Seq<char> {
    let waiting = secs_phrase(shown_wait(elapsed));
    if intent == BleIntent::Idle {
        "Not connecting. The board is free to sleep."@
    } else if connected {
        "Connected. The board stays awake until you disconnect."@
    } else if intent == BleIntent::Connect {
        "Connecting for "@ + waiting + "."@
    } else {
        "Scanning for a sleeping board for "@ + waiting + "."@
    }
}

impl MyApp {
    /// The state at startup, before any settings are adopted.
    fn blank(
        defaults: BoardDefaults,
        live_gps: bool,
        compass: bool,
        cached: bool,
        config_path: String,
        now: u64,
    ) -> (r: Self)
        ensures
            is_blank(r, defaults, live_gps, compass, cached, config_path@, now),
    {
        let r = MyApp {
            layer: MapLayer::Standard,
            live_gps,
            compass: if compass {
                Some(false)
            } else {
                None
            },
            current: None,
            current_time: None,
            heading: None,
            compass_heading: None,
            heading_up: false,
            tracking_beacon: None,
            track: Vec::new(),
            beacon: None,
            beacon_time: None,
            beacon_packet: None,
            beacon_track: Vec::new(),
            discovered: Vec::new(),
            ble_status: "idle".to_owned(),
            ble_connected: false,
            ble_interval_text: decimal_text(defaults.update_interval_ms as u64),
            ble_ack: None,
            ble_ack_pending: false,
            telemetry: None,
            board_log: None,
            board_settings: None,
            settings_unsupported: false,
            ble_intent: BleIntent::Idle,
            intent_since: now,
            connected_at: None,
            // The low end of the clamp range, so a stray press arms the
            // shortest sleep rather than the longest.
            sleep_interval_text: decimal_text(defaults.esp_sleep_min_s as u64),
            // The firmware's own default, not the low end: a short window is
            // the hazardous direction here (it is what makes a sleeping board
            // hard to catch), so a stray press should ask for what an
            // unconfigured board already does.
            adv_window_text: decimal_text(defaults.esp_adv_default_s as u64),
            page: Page::MapView,
            config: AppConfig::default(),
            config_path,
            config_feedback: None,
            ble_mac_text: String::new(),
            radio: None,
            radio_path: "RADIO.toml".to_owned(),
            radio_feedback: None,
            radio_edit: RadioEdit::Idle,
            cached,
            select: RegionSelect::Inactive,
            downloading: false,
            points_search: String::new(),
            points_filter: PointFilter::All,
            manual_gps_text: String::new(),
            manual_gps_bad: false,
            selected_marker: None,
            center_menu: false,
        };
        r
    }

    /// The state at startup, and the first command for the worker.
    ///
    /// `loaded` is what the settings file at `config_path` holds, or `None`
    /// where it could not be loaded; the defaults then apply, which connect to
    /// the beacon.
    pub fn new(
        defaults: BoardDefaults,
        live_gps: bool,
        compass: bool,
        cached: bool,
        config_path: String,
        loaded: Option<AppConfig>,
        now: u64,
    ) -> (r: (Self, BleCommand))
        ensures
            ({
                let (app, command) = r;
                &&& exists|start: MyApp|
                    is_blank(start, defaults, live_gps, compass, cached, config_path@, now)
                        && app == (MyApp {
                        ble_intent: seeded_intent(app.config),
                        ble_mac_text: app.ble_mac_text,
                        config: app.config,
                        ..start
                    })
                &&& match loaded {
                    Some(config) => app.config == config && app.ble_mac_text@ == text_or_empty(
                        config.ble.mac,
                    ),
                    None => is_default_config(app.config) && app.ble_mac_text@.len() == 0,
                }
                &&& asks_for(command, app.ble_intent, opt_text(app.config.ble.mac))
            }),
    {
        let mut app = MyApp::blank(defaults, live_gps, compass, cached, config_path, now);
        let ghost start = app;
        match loaded {
            Some(config) => {
                app.apply_config(config);
            },
            None => {},
        }
        let command = app.sync_ble_to_config(now);
        assert(is_blank(start, defaults, live_gps, compass, cached, config_path@, now));
        (app, command)
    }

    /// Adopt a loaded config: colors, the MAC input, and the pin of the BLE
    /// connection. A connection that is wanted is asked for again, so that the
    /// new pin takes hold; a link that was let go of stays that way, whatever the
    /// config says of startup.
    pub fn apply_config(&mut self, config: AppConfig) -> (r: Option<BleCommand>)
        ensures
            adopted(*old(self), *final(self), config),
            goes_along(r, old(self).ble_intent, opt_text(config.ble.mac)),
    {
        self.ble_mac_text = match &config.ble.mac {
            Some(mac) => mac.clone(),
            None => String::new(),
        };
        assert(self.ble_mac_text@ =~= text_or_empty(config.ble.mac));
        self.config = config;
        let intent = self.ble_intent;
        let since: u64 = self.intent_since;
        if intent == BleIntent::Idle {
            None
        } else {
            Some(self.set_ble_intent(intent, since))
        }
    }

    /// Seed the intent from the config at startup: auto-connect unless the
    /// master switch is off.
    pub fn sync_ble_to_config(&mut self, now: u64) -> (r: BleCommand)
        ensures
            *final(self) == (MyApp {
                ble_intent: seeded_intent(old(self).config),
                intent_since: if old(self).ble_intent == seeded_intent(old(self).config) {
                    old(self).intent_since
                } else {
                    now
                },
                ..*old(self)
            }),
            asks_for(r, seeded_intent(old(self).config), opt_text(old(self).config.ble.mac)),
    {
        let intent = if self.config.ble.enabled {
            BleIntent::Connect
        } else {
            BleIntent::Idle
        };
        self.set_ble_intent(intent, now)
    }

    /// Ask the worker for a new connection state, and say so even when the
    /// intent has not changed - that is what makes the buttons re-send a
    /// request with an edited MAC, or restart a scan that has given up.
    ///
    /// Each button sends exactly one command. They must not be composed (a
    /// Disconnect followed by a Connect, say): the worker drains its whole
    /// queue in one pass, so the later command simply overwrites the earlier
    /// one and the disconnect never happens.
    pub fn set_ble_intent(&mut self, intent: BleIntent, now: u64) -> (r: BleCommand)
        ensures
            *final(self) == (MyApp {
                ble_intent: intent,
                intent_since: if old(self).ble_intent == intent {
                    old(self).intent_since
                } else {
                    now
                },
                ..*old(self)
            }),
            asks_for(r, intent, opt_text(old(self).config.ble.mac)),
    {
        if self.ble_intent != intent {
            self.intent_since = now;
        }
        self.ble_intent = intent;
        match intent {
            BleIntent::Idle => BleCommand::Disconnect,
            BleIntent::Connect => BleCommand::Connect {
                mac: copy_opt(&self.config.ble.mac),
                chase: false,
            },
            BleIntent::ConnectSleeping => BleCommand::Connect {
                mac: copy_opt(&self.config.ble.mac),
                chase: true,
            },
        }
    }

    /// What the app is doing about the link, for the Beacon and Status pages.
    /// Separate from `ble_status`, which is the worker's own running commentary
    /// on the attempt. `elapsed` counts the seconds since the intent changed.
    pub fn ble_intent_text(&self, elapsed: u64) -> (r: String)
        ensures
            r@ == intent_phrase(self.ble_intent, self.ble_connected, elapsed),
    {
        let secs: u32 = (elapsed % 0x1_0000_0000) as u32;
        let waiting = secs_text(
            if secs == 0 {
                1
            } else {
                secs
            },
        );
        match (self.ble_intent, self.ble_connected) {
            (BleIntent::Idle, _) => "Not connecting. The board is free to sleep.".to_owned(),
            (_, true) => "Connected. The board stays awake until you disconnect.".to_owned(),
            (BleIntent::Connect, false) => joined3("Connecting for ", waiting.as_str(), "."),
            (BleIntent::ConnectSleeping, false) => joined3(
                "Scanning for a sleeping board for ",
                waiting.as_str(),
                ".",
            ),
        }
    }

    /// Queue one config write to the board and wait for its ack. The controls
    /// stay disabled until the ack lands, so only one write is ever in flight
    /// and the state shown is always one the board has confirmed.
    pub fn send_config(&mut self, write: ConfigWrite) -> (r: BleCommand)
        ensures
            *final(self) == (MyApp { ble_ack: None, ble_ack_pending: true, ..*old(self) }),
            r == BleCommand::Config(write),
    {
        self.ble_ack = None;
        self.ble_ack_pending = true;
        BleCommand::Config(write)
    }
}

/// The state at startup, before any settings are adopted.
pub open spec fn is_blank(
    app: MyApp,
    defaults: BoardDefaults,
    live_gps: bool,
    compass: bool,
    cached: bool,
    config_path: Seq<char>,
    now: u64,
) -> bool {
    &&& app.layer == MapLayer::Standard
    &&& app.live_gps == live_gps
    &&& app.compass == if compass {
        Some(false)
    } else {
        None
    }
    &&& app.current is None
    &&& app.current_time is None
    &&& app.heading is None
    &&& app.compass_heading is None
    &&& !app.heading_up
    &&& app.tracking_beacon is None
    &&& app.track@.len() == 0
    &&& app.beacon is None
    &&& app.beacon_time is None
    &&& app.beacon_packet is None
    &&& app.beacon_track@.len() == 0
    &&& app.discovered@.len() == 0
    &&& app.ble_status@ == "idle"@
    &&& !app.ble_connected
    &&& app.ble_interval_text@ == decimal(defaults.update_interval_ms as nat)
    &&& app.ble_ack is None
    &&& !app.ble_ack_pending
    &&& app.telemetry is None
    &&& app.board_log is None
    &&& app.board_settings is None
    &&& !app.settings_unsupported
    &&& app.ble_intent == BleIntent::Idle
    &&& app.intent_since == now
    &&& app.connected_at is None
    &&& app.sleep_interval_text@ == decimal(defaults.esp_sleep_min_s as nat)
    &&& app.adv_window_text@ == decimal(defaults.esp_adv_default_s as nat)
    &&& app.page == Page::MapView
    &&& is_default_config(app.config)
    &&& app.config_path@ == config_path
    &&& app.config_feedback is None
    &&& app.ble_mac_text@.len() == 0
    &&& app.radio is None
    &&& app.radio_path@ == "RADIO.toml"@
    &&& app.radio_feedback is None
    &&& app.radio_edit is Idle
    &&& app.cached == cached
    &&& app.select == RegionSelect::Inactive
    &&& !app.downloading
    &&& app.points_search@.len() == 0
    &&& app.points_filter == PointFilter::All
    &&& app.manual_gps_text@.len() == 0
    &&& !app.manual_gps_bad
    &&& app.selected_marker is None
    &&& !app.center_menu
}

/// A message about a file.
pub open spec fn about(what: Seq<char>, path: Seq<char>) -> Option<Result<Seq<char>, Seq<char>>> {
    Some(Ok(what + path))
}

/// A complaint.
pub open spec fn complaint(why: Seq<char>) -> Option<Result<Seq<char>, Seq<char>>> {
    Some(Err(why))
}

impl MyApp {
    /// The file that the Settings page is pointed at, or `None`, with a word
    /// about it, where no path is typed.
    pub fn config_file(&mut self) -> (r: Option<String>)
        ensures
            *final(self) == (MyApp { config_feedback: final(self).config_feedback, ..*old(self) }),
            match r {
                Some(path) => trimmed(old(self).config_path@).len() > 0 && path@ == trimmed(
                    old(self).config_path@,
                ) && final(self).config_feedback == old(self).config_feedback,
                None => trimmed(old(self).config_path@).len() == 0 && feedback(
                    final(self).config_feedback,
                ) == complaint("Enter a file path."@),
            },
    {
        let path = trim(self.config_path.as_str());
        if path.as_str().is_empty() {
            self.config_feedback = Some(Err("Enter a file path.".to_owned()));
            None
        } else {
            Some(path)
        }
    }

    /// Take in the config file at `path`, recording a human-readable result
    /// for the Settings page to show.
    pub fn load_config(&mut self, path: &str, loaded: Result<AppConfig, String>) -> (r: Option<
        BleCommand,
    >)
        ensures
            match loaded {
                Ok(config) => {
                    &&& adopted(
                        MyApp { config_feedback: final(self).config_feedback, ..*old(self) },
                        *final(self),
                        config,
                    )
                    &&& feedback(final(self).config_feedback) == about("Loaded "@, path@)
                    &&& goes_along(r, old(self).ble_intent, opt_text(config.ble.mac))
                },
                Err(why) => {
                    &&& *final(self) == (MyApp {
                        config_feedback: final(self).config_feedback,
                        ..*old(self)
                    })
                    &&& feedback(final(self).config_feedback) == complaint(why@)
                    &&& r is None
                },
            },
    {
        match loaded {
            Ok(config) => {
                let command = self.apply_config(config);
                self.config_feedback = Some(Ok(joined("Loaded ", path)));
                command
            },
            Err(why) => {
                self.config_feedback = Some(Err(why));
                None
            },
        }
    }

    /// Take down how writing the settings as they stand to `path` went: the
    /// file was created, or edited in place, or could not be written.
    pub fn save_config(&mut self, path: &str, saved: Result<bool, String>)
        ensures
            *final(self) == (MyApp { config_feedback: final(self).config_feedback, ..*old(self) }),
            feedback(final(self).config_feedback) == match saved {
                Ok(true) => about("Created "@, path@),
                Ok(false) => about("Saved "@, path@),
                Err(why) => complaint(why@),
            },
    {
        self.config_feedback = Some(
            match saved {
                Ok(true) => Ok(joined("Created ", path)),
                Ok(false) => Ok(joined("Saved ", path)),
                Err(why) => Err(why),
            },
        );
    }

    /// Drop every setting back to its built-in default. The file is untouched
    /// until the next save, so this is undoable by reloading.
    pub fn reset_config(&mut self) -> (r: Option<BleCommand>)
        ensures
            is_default_config(final(self).config),
            adopted(
                MyApp { config_feedback: final(self).config_feedback, ..*old(self) },
                *final(self),
                final(self).config,
            ),
            feedback(final(self).config_feedback) == Some(
                Ok::<Seq<char>, Seq<char>>("Reset to defaults. Not saved yet."@),
            ),
            goes_along(r, old(self).ble_intent, None),
    {
        let command = self.apply_config(AppConfig::default());
        self.config_feedback = Some(Ok("Reset to defaults. Not saved yet.".to_owned()));
        command
    }

    /// The file that the Radio page is pointed at, or `None`, with a word about
    /// it, where no path is typed.
    pub fn radio_file(&mut self) -> (r: Option<String>)
        ensures
            *final(self) == (MyApp { radio_feedback: final(self).radio_feedback, ..*old(self) }),
            match r {
                Some(path) => trimmed(old(self).radio_path@).len() > 0 && path@ == trimmed(
                    old(self).radio_path@,
                ) && final(self).radio_feedback == old(self).radio_feedback,
                None => trimmed(old(self).radio_path@).len() == 0 && feedback(
                    final(self).radio_feedback,
                ) == complaint("Enter a file path."@),
            },
    {
        let path = trim(self.radio_path.as_str());
        if path.as_str().is_empty() {
            self.radio_feedback = Some(Err("Enter a file path.".to_owned()));
            None
        } else {
            Some(path)
        }
    }

    /// Take in the RADIO.TOML at `path`, which holds `text` unless it could not
    /// be read, recording a human-readable result for the Radio page to show
    /// and clearing any in-flight edit.
    pub fn load_radio(&mut self, path: &str, text: Result<String, String>)
        ensures
            *final(self) == (MyApp {
                radio: final(self).radio,
                radio_feedback: final(self).radio_feedback,
                radio_edit: RadioEdit::Idle,
                ..*old(self)
            }),
            match text {
                Ok(text) => match parsed_document(text@) {
                    Ok(doc) => {
                        &&& feedback(final(self).radio_feedback) == about("Loaded "@, path@)
                        &&& final(self).radio is Some
                        &&& final(self).radio->0.doc@ == doc
                        &&& listed(final(self).radio->0.fields@) == all_fields(doc.rows)
                        &&& final(self).radio->0.path@ == path@
                        &&& !final(self).radio->0.dirty
                    },
                    Err(why) => {
                        &&& final(self).radio == old(self).radio
                        &&& feedback(final(self).radio_feedback) == complaint(path@ + ": "@ + why)
                    },
                },
                Err(why) => {
                    &&& final(self).radio == old(self).radio
                    &&& feedback(final(self).radio_feedback) == complaint(path@ + ": "@ + why@)
                },
            },
    {
        self.radio_edit = RadioEdit::Idle;
        let result = match text {
            Ok(text) => RadioDoc::from_text(path, text.as_str()),
            Err(why) => Err(joined3(path, ": ", why.as_str())),
        };
        match result {
            Ok(doc) => {
                self.radio = Some(doc);
                self.radio_feedback = Some(Ok(joined("Loaded ", path)));
            },
            Err(why) => {
                self.radio_feedback = Some(Err(why));
            },
        }
    }

    /// Start a RADIO.TOML at the firmware defaults, which `example` spells,
    /// aimed at `path`. Nothing is written until Save, which backs up any
    /// existing file first, so this cannot lose a config by itself.
    pub fn default_radio(&mut self, path: &str, example: &str)
        ensures
            *final(self) == (MyApp {
                radio: final(self).radio,
                radio_feedback: final(self).radio_feedback,
                radio_edit: RadioEdit::Idle,
                ..*old(self)
            }),
            match parsed_document(example@) {
                Ok(doc) => {
                    &&& feedback(final(self).radio_feedback) == about(
                        "Default config ready. Press Save to write "@,
                        path@,
                    )
                    &&& final(self).radio is Some
                    &&& final(self).radio->0.doc@ == doc
                    &&& listed(final(self).radio->0.fields@) == all_fields(doc.rows)
                    &&& final(self).radio->0.path@ == path@
                    &&& final(self).radio->0.dirty
                },
                Err(why) => {
                    &&& final(self).radio == old(self).radio
                    &&& feedback(final(self).radio_feedback) == complaint(path@ + ": "@ + why)
                },
            },
    {
        self.radio_edit = RadioEdit::Idle;
        match RadioDoc::from_text(path, example) {
            Ok(doc) => {
                let mut doc = doc;
                doc.dirty = true;
                self.radio = Some(doc);
                self.radio_feedback = Some(
                    Ok(joined("Default config ready. Press Save to write ", path)),
                );
            },
            Err(why) => {
                self.radio_feedback = Some(Err(why));
            },
        }
    }

    /// Take down how writing the edited RADIO.TOML back went: the backup of the
    /// previous file (its name, where there was a file), and the file itself.
    /// Without a backup the file is not written at all.
    pub fn save_radio(
        &mut self,
        backup: Result<Option<String>, String>,
        written: Result<(), String>,
    )
        ensures
            match old(self).radio {
                None => *final(self) == *old(self),
                Some(doc) => {
                    let saved = backup is Ok && written is Ok;
                    &&& *final(self) == (MyApp {
                        radio: Some(
                            RadioDoc {
                                dirty: if saved {
                                    false
                                } else {
                                    doc.dirty
                                },
                                ..doc
                            },
                        ),
                        radio_feedback: final(self).radio_feedback,
                        ..*old(self)
                    })
                    &&& feedback(final(self).radio_feedback) == match backup {
                        Err(why) => complaint(why@),
                        Ok(name) => match written {
                            Err(why) => complaint(doc.path@ + ": "@ + why@),
                            Ok(_) => match name {
                                Some(name) => about(
                                    "Saved. Backed up previous version as "@,
                                    name@,
                                ),
                                None => Some(Ok("Saved."@)),
                            },
                        },
                    }
                },
            },
    {
        let mut radio = None;
        std::mem::swap(&mut radio, &mut self.radio);
        match radio {
            None => {},
            Some(doc) => {
                let mut doc = doc;
                let result = match backup {
                    Err(why) => Err(why),
                    Ok(name) => doc.save(name, written),
                };
                self.radio_feedback = Some(
                    match result {
                        Ok(Some(name)) => Ok(
                            joined("Saved. Backed up previous version as ", name.as_str()),
                        ),
                        Ok(None) => Ok("Saved.".to_owned()),
                        Err(why) => Err(why),
                    },
                );
                self.radio = Some(doc);
            },
        }
    }

    /// Load a backup, which holds `text` unless it could not be read, into the
    /// editor. A restored file is unsaved until Save writes it as current.
    pub fn restore_radio(&mut self, name: &str, path: &str, text: Result<String, String>)
        ensures
            match old(self).radio {
                None => *final(self) == (MyApp { radio_edit: RadioEdit::Idle, ..*old(self) }),
                Some(doc) => {
                    &&& *final(self) == (MyApp {
                        radio: final(self).radio,
                        radio_feedback: final(self).radio_feedback,
                        radio_edit: RadioEdit::Idle,
                        ..*old(self)
                    })
                    &&& final(self).radio is Some
                    &&& final(self).radio->0.path == doc.path
                    &&& match text {
                        Ok(text) => match parsed_document(text@) {
                            Ok(doc) => {
                                &&& feedback(final(self).radio_feedback) == Some(
                                    Ok::<Seq<char>, Seq<char>>(
                                        "Restored "@ + name@ + " (unsaved - press Save)"@,
                                    ),
                                )
                                &&& final(self).radio->0.doc@ == doc
                                &&& listed(final(self).radio->0.fields@) == all_fields(doc.rows)
                                &&& final(self).radio->0.dirty
                            },
                            Err(why) => {
                                &&& final(self).radio == old(self).radio
                                &&& feedback(final(self).radio_feedback) == complaint(
                                    path@ + ": "@ + why,
                                )
                            },
                        },
                        Err(why) => {
                            &&& final(self).radio == old(self).radio
                            &&& feedback(final(self).radio_feedback) == complaint(
                                path@ + ": "@ + why@,
                            )
                        },
                    }
                },
            },
    {
        self.radio_edit = RadioEdit::Idle;
        let mut radio = None;
        std::mem::swap(&mut radio, &mut self.radio);
        match radio {
            None => {},
            Some(doc) => {
                let mut doc = doc;
                let result = match text {
                    Ok(text) => doc.restore(path, text.as_str()),
                    Err(why) => Err(joined3(path, ": ", why.as_str())),
                };
                self.radio_feedback = Some(
                    match result {
                        Ok(_) => Ok(joined3("Restored ", name, " (unsaved - press Save)")),
                        Err(why) => Err(why),
                    },
                );
                self.radio = Some(doc);
            },
        }
    }

    /// Device-facing compass heading if available, otherwise course over ground.
    pub open spec fn best_heading(&self) -> Option<u32> {
        if self.compass_heading is Some {
            self.compass_heading
        } else {
            self.heading
        }
    }

    /// Device-facing compass heading if available, otherwise course over ground.
    pub fn effective_heading(&self) -> (r: Option<u32>)
        ensures
            r == self.best_heading(),
    {
        if self.compass_heading.is_some() {
            self.compass_heading
        } else {
            self.heading
        }
    }

    /// The map can be turned to a heading.
    pub open spec fn can_turn(&self) -> bool {
        self.best_heading() is Some || self.compass is Some
    }

    /// Whether the map can be turned to a heading at all: either a heading is
    /// already known, or a compass exists that would supply one once powered.
    /// The heading-up button is shown on this rather than on a live reading,
    /// since the sensor is off until that button turns it on.
    pub fn has_direction(&self) -> (r: bool)
        ensures
            r == self.can_turn(),
    {
        self.effective_heading().is_some() || self.compass.is_some()
    }

    /// Power the compass sensor for heading-up and nothing else, and tell what
    /// to ask of it, where there is one.
    ///
    /// The rotation-vector sensor is fused from the accelerometer, gyroscope
    /// and magnetometer, so it keeps all three awake; heading-up is the only
    /// mode that draws a device heading. Tracking mode turns the map by the
    /// bearing to the beacon instead, and the marker's heading arrow falls back
    /// to course over ground.
    pub fn sync_compass_power(&mut self) -> (r: Option<bool>)
        ensures
            match old(self).compass {
                None => r is None && *final(self) == *old(self),
                Some(wanted) => r == Some(old(self).heading_up) && *final(self) == (MyApp {
                    compass: Some(old(self).heading_up),
                    compass_heading: if wanted && !old(self).heading_up {
                        None
                    } else {
                        old(self).compass_heading
                    },
                    ..*old(self)
                }),
            },
    {
        match self.compass {
            None => None,
            Some(was) => {
                let wanted: bool = self.heading_up;
                self.compass = Some(wanted);
                // Switching off drops the last reading: it stops being updated,
                // so holding on to it would draw a heading that quietly goes
                // stale.
                if was && !wanted {
                    self.compass_heading = None;
                }
                Some(wanted)
            },
        }
    }

    /// Takes a heading from the compass.
    pub fn take_heading(&mut self, heading: u32)
        ensures
            *final(self) == (MyApp { compass_heading: Some(heading), ..*old(self) }),
    {
        self.compass_heading = Some(heading);
    }

    /// A compass thread that could not start (no rotation-vector sensor on this
    /// device) has gone. Forgetting it hides the heading-up button, which is
    /// keyed off the compass existing rather than off a live reading - the
    /// sensor being off is the normal state.
    pub fn compass_gone(&mut self)
        ensures
            *final(self) == (MyApp { compass: None, ..*old(self) }),
    {
        self.compass = None;
    }
}

/// A position that was measured, and what the track needs to know of it.
pub struct Reading {
    /// "lat lon" with 5 decimals.
    pub coords: String,
    /// The distance in meters from the last recorded point of the same track,
    /// as a double-precision bit pattern. It has no meaning for a track that is
    /// still empty.
    pub moved: u64,
    pub time: Timestamp,
}

/// A position is far enough from the last recorded track point to append it.
pub open spec fn is_far_enough(track: Seq<TrackPoint>, moved: u64, min_distance: u64) -> bool {
    track.len() == 0 || at_least(moved, min_distance)
}

/// Whether a position is far enough from the last recorded track point to
/// append it. Always true for the first point; otherwise the move must be at
/// least `min_distance`, so a track is decimated to points that far apart.
pub fn far_enough(track: &Vec<TrackPoint>, moved: u64, min_distance: u64) -> (r: bool)
    ensures
        r == is_far_enough(track@, moved, min_distance),
{
    track.len() == 0 || no_less(moved, min_distance)
}

/// A track after a reading: longer by one point where the reading is far enough
/// from the last one, and as it was otherwise.
pub open spec fn recorded(
    before: Seq<TrackPoint>,
    after: Seq<TrackPoint>,
    pos: Position,
    source: PointSource,
    reading: Reading,
    min_distance: u64,
) -> bool {
    if is_far_enough(before, reading.moved, min_distance) {
        after == before.push(TrackPoint { pos, coords: reading.coords, source, time: reading.time })
    } else {
        after == before
    }
}

/// The place of the first board with an address.
pub open spec fn place_of(list: Seq<DiscoveredDevice>, address: Seq<char>) -> Option<int>
    decreases list.len(),
{
    if list.len() == 0 {
        None
    } else {
        match place_of(list.drop_last(), address) {
            Some(i) => Some(i),
            None => if list.last().address@ == address {
                Some(list.len() - 1)
            } else {
                None
            },
        }
    }
}

/// A list of boards after one more answered: it takes the place of what was
/// known of the same address, or the end of the list.
pub open spec fn noted(list: Seq<DiscoveredDevice>, device: DiscoveredDevice) -> Seq<
    DiscoveredDevice,
> {
    match place_of(list, device.address@) {
        Some(i) => list.update(i, device),
        None => list.push(device),
    }
}

proof fn lemma_place_stays(list: Seq<DiscoveredDevice>, address: Seq<char>, n: int)
    requires
        0 <= n <= list.len(),
        place_of(list.take(n), address) is Some,
    ensures
        place_of(list, address) == place_of(list.take(n), address),
    decreases list.len() - n,
{
    if n < list.len() {
        assert(list.take(n + 1).drop_last() =~= list.take(n));
        lemma_place_stays(list, address, n + 1);
    } else {
        assert(list.take(n) =~= list);
    }
}

fn note_device(list: &mut Vec<DiscoveredDevice>, device: DiscoveredDevice)
    ensures
        final(list)@ == noted(old(list)@, device),
{
    let ghost had = list@;
    let ghost address = device.address@;
    let mut i: usize = 0;
    proof {
        assert(had.take(0) =~= Seq::empty());
    }
    while i < list.len()
        invariant
            had == list@,
            had == old(list)@,
            address == device.address@,
            i <= list@.len(),
            place_of(had.take(i as int), address) is None,
        decreases list@.len() - i,
    {
        proof {
            assert(had.take(i + 1).drop_last() =~= had.take(i as int));
        }
        if same(list[i].address.as_str(), device.address.as_str()) {
            proof {
                lemma_place_stays(had, address, i + 1);
            }
            list.set(i, device);
            return;
        }
        i = i + 1;
    }
    proof {
        assert(had.take(had.len() as int) =~= had);
    }
    list.push(device);
}

/// The inputs of the Beacon page as a settings report leaves them: the first
/// report of a session fills them in, so that the boxes open on what the board
/// is actually set to. Later reports leave anything half-typed alone.
pub open spec fn inputs_seeded(before: MyApp, after: MyApp, s: Settings) -> bool {
    if before.board_settings is None {
        &&& after.ble_interval_text@ == decimal(s.notify_interval_ms as nat)
        &&& if s.sleep_interval_s > 0 {
            after.sleep_interval_text@ == decimal(s.sleep_interval_s as nat)
        } else {
            after.sleep_interval_text == before.sleep_interval_text
        }
        &&& if s.adv_window_s > 0 {
            after.adv_window_text@ == decimal(s.adv_window_s as nat)
        } else {
            after.adv_window_text == before.adv_window_text
        }
    } else {
        &&& after.ble_interval_text == before.ble_interval_text
        &&& after.sleep_interval_text == before.sleep_interval_text
        &&& after.adv_window_text == before.adv_window_text
    }
}

/// The state after an event from the BLE worker.
pub open spec fn event_taken(
    before: MyApp,
    after: MyApp,
    event: BleEvent,
    reading: Reading,
    now: u64,
) -> bool {
    match event {
        BleEvent::Status(text) => after == (MyApp { ble_status: text, ..before }),
        BleEvent::Discovered(device) => after == (MyApp { discovered: after.discovered, ..before })
            && after.discovered@ == noted(before.discovered@, device),
        // A fresh link re-reads everything below; nothing from the last session
        // still describes the board. The intent is left alone: it says what to
        // do when there is no link, so a board that sleeps again should still
        // be chased if that is what was asked for.
        BleEvent::Connected(true) => after == (MyApp {
            ble_connected: true,
            connected_at: Some(now),
            board_settings: None,
            settings_unsupported: false,
            telemetry: None,
            ..before
        }),
        BleEvent::Connected(false) => after == (MyApp {
            ble_connected: false,
            connected_at: None,
            ..before
        }),
        BleEvent::Fix(p) => if p.fix {
            &&& after == (MyApp {
                beacon_packet: Some(p),
                beacon: Some(p.pos),
                beacon_time: Some(reading.time),
                beacon_track: after.beacon_track,
                ..before
            })
            &&& recorded(
                before.beacon_track@,
                after.beacon_track@,
                p.pos,
                PointSource::Esp,
                reading,
                before.config.track.min_distance,
            )
        } else {
            after == (MyApp { beacon_packet: Some(p), ..before })
        },
        BleEvent::Ack(ack) => after == (MyApp {
            ble_ack_pending: false,
            ble_ack: after.ble_ack,
            ..before
        }) && feedback(after.ble_ack) == Some(ack_said(ack)),
        BleEvent::Telemetry(t) => after == (MyApp { telemetry: Some(t), ..before }),
        BleEvent::Log(line) => after == (MyApp { board_log: Some(line), ..before }),
        BleEvent::Settings(s) => after == (MyApp {
            board_settings: Some(s),
            settings_unsupported: false,
            ble_interval_text: after.ble_interval_text,
            sleep_interval_text: after.sleep_interval_text,
            adv_window_text: after.adv_window_text,
            ..before
        }) && inputs_seeded(before, after, s),
        BleEvent::SettingsUnsupported => after == (MyApp {
            board_settings: None,
            settings_unsupported: true,
            ..before
        }),
    }
}

/// Puts a number into an input, or leaves the input as it is.
fn fill_in(input: &mut String, fill: bool, n: u32)
    ensures
        if fill {
            final(input)@ == decimal(n as nat)
        } else {
            *final(input) == *old(input)
        },
{
    if fill {
        *input = decimal_text(n as u64);
    }
}

impl MyApp {
    /// Apply one phone/manual GPS fix: move the marker, update the heading, and
    /// append to the recorded track (decimated by the min-distance setting).
    pub fn apply_gps_fix(&mut self, fix: GpsFix, reading: Reading)
        ensures
            *final(self) == (MyApp {
                current: Some(fix.pos),
                current_time: Some(reading.time),
                heading: fix.bearing,
                track: final(self).track,
                ..*old(self)
            }),
            recorded(
                old(self).track@,
                final(self).track@,
                fix.pos,
                PointSource::Phone,
                reading,
                old(self).config.track.min_distance,
            ),
    {
        self.current = Some(fix.pos);
        self.current_time = Some(reading.time);
        self.heading = fix.bearing;
        if far_enough(&self.track, reading.moved, self.config.track.min_distance) {
            self.track.push(
                TrackPoint {
                    pos: fix.pos,
                    coords: reading.coords,
                    source: PointSource::Phone,
                    time: reading.time,
                },
            );
        }
    }

    fn take_packet(&mut self, p: PositionPacket, reading: Reading)
        ensures
            if p.fix {
                &&& *final(self) == (MyApp {
                    beacon_packet: Some(p),
                    beacon: Some(p.pos),
                    beacon_time: Some(reading.time),
                    beacon_track: final(self).beacon_track,
                    ..*old(self)
                })
                &&& recorded(
                    old(self).beacon_track@,
                    final(self).beacon_track@,
                    p.pos,
                    PointSource::Esp,
                    reading,
                    old(self).config.track.min_distance,
                )
            } else {
                *final(self) == (MyApp { beacon_packet: Some(p), ..*old(self) })
            },
    {
        self.beacon_packet = Some(p);
        if p.fix {
            self.beacon = Some(p.pos);
            self.beacon_time = Some(reading.time);
            if far_enough(&self.beacon_track, reading.moved, self.config.track.min_distance) {
                self.beacon_track.push(
                    TrackPoint {
                        pos: p.pos,
                        coords: reading.coords,
                        source: PointSource::Esp,
                        time: reading.time,
                    },
                );
            }
        }
    }

    fn take_settings(&mut self, s: Settings)
        ensures
            *final(self) == (MyApp {
                board_settings: Some(s),
                settings_unsupported: false,
                ble_interval_text: final(self).ble_interval_text,
                sleep_interval_text: final(self).sleep_interval_text,
                adv_window_text: final(self).adv_window_text,
                ..*old(self)
            }),
            inputs_seeded(*old(self), *final(self), s),
    {
        let first: bool = self.board_settings.is_none();
        fill_in(&mut self.ble_interval_text, first, s.notify_interval_ms);
        fill_in(&mut self.sleep_interval_text, first && s.sleep_interval_s > 0, s.sleep_interval_s);
        // The board reports the window it resolved, so a 0 here would be a board
        // that does not know its own effective value; keep the default rather
        // than show it.
        fill_in(&mut self.adv_window_text, first && s.adv_window_s > 0, s.adv_window_s);
        self.board_settings = Some(s);
        self.settings_unsupported = false;
    }

    fn take_device(&mut self, device: DiscoveredDevice)
        ensures
            *final(self) == (MyApp { discovered: final(self).discovered, ..*old(self) }),
            final(self).discovered@ == noted(old(self).discovered@, device),
    {
        note_device(&mut self.discovered, device);
    }

    fn take_connection(&mut self, up: bool, now: u64)
        ensures
            up ==> *final(self) == (MyApp {
                ble_connected: true,
                connected_at: Some(now),
                board_settings: None,
                settings_unsupported: false,
                telemetry: None,
                ..*old(self)
            }),
            !up ==> *final(self) == (MyApp {
                ble_connected: false,
                connected_at: None,
                ..*old(self)
            }),
    {
        self.ble_connected = up;
        if up {
            self.connected_at = Some(now);
            self.board_settings = None;
            self.settings_unsupported = false;
            self.telemetry = None;
        } else {
            self.connected_at = None;
        }
    }

    fn take_ack(&mut self, ack: Ack)
        ensures
            *final(self) == (MyApp {
                ble_ack_pending: false,
                ble_ack: final(self).ble_ack,
                ..*old(self)
            }),
            feedback(final(self).ble_ack) == Some(ack_said(ack)),
    {
        self.ble_ack_pending = false;
        self.ble_ack = Some(ack_message(&ack));
    }

    fn lose_settings(&mut self)
        ensures
            *final(self) == (MyApp {
                board_settings: None,
                settings_unsupported: true,
                ..*old(self)
            }),
    {
        self.board_settings = None;
        self.settings_unsupported = true;
    }

    /// Takes one event from the BLE worker. `reading` is what the beacon's track
    /// needs to know of the event's position, where it has one, and `now` the
    /// time on the clock that connections are timed by.
    pub fn take_ble_event(&mut self, event: BleEvent, reading: Reading, now: u64)
        ensures
            event_taken(*old(self), *final(self), event, reading, now),
    {
        match event {
            BleEvent::Status(text) => {
                self.ble_status = text;
            },
            BleEvent::Discovered(device) => {
                self.take_device(device);
            },
            BleEvent::Connected(up) => {
                self.take_connection(up, now);
            },
            BleEvent::Fix(p) => {
                self.take_packet(p, reading);
            },
            BleEvent::Ack(ack) => {
                self.take_ack(ack);
            },
            BleEvent::Telemetry(t) => {
                self.telemetry = Some(t);
            },
            BleEvent::Log(line) => {
                self.board_log = Some(line);
            },
            BleEvent::Settings(s) => {
                self.take_settings(s);
            },
            BleEvent::SettingsUnsupported => {
                self.lose_settings();
            },
        }
    }
}

} // verus!
