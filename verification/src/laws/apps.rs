//! The application's state: intents, events of the worker, acks and files.

use crate::app::{
    ack_message, default_config_path, feedback, place_of, said, BleIntent, BoardDefaults, MyApp,
    Page, Reading, RegionSelect,
};
use crate::ble::{
    Ack, AckStatus, BleCommand, BleEvent, ConfigWrite, DiscoveredDevice, SettingId, Settings,
    Telemetry,
};
use crate::config::{is_default_config, AppConfig};
use crate::durations::secs_text;
use crate::points::PointFilter;
use crate::text::{decimal, opt_text};
use crate::tiles::MapLayer;
use vstd::prelude::*;

verus! {

/// A button sends one command: to be left alone, or to connect to the device
/// that is pinned, chasing it exactly where it may sleep. The wait is counted from
/// when the intent changed, and asking for the same again does not restart it.
pub proof fn a_button_asks_for_what_is_intended(
    app: &mut MyApp,
    intent: BleIntent,
    now: u64,
    r: BleCommand,
)
    requires
        call_ensures(MyApp::set_ble_intent, (app, intent, now), r),
    ensures
        intent == BleIntent::Idle <==> r is Disconnect,
        intent != BleIntent::Idle ==> r is Connect && opt_text(r->mac) == opt_text(
            old(app).config.ble.mac,
        ) && (r->chase <==> intent == BleIntent::ConnectSleeping),
        final(app).ble_intent == intent,
        intent != old(app).ble_intent ==> final(app).intent_since == now,
        intent == old(app).ble_intent ==> final(app).intent_since == old(app).intent_since,
        *final(app) == (MyApp {
            ble_intent: final(app).ble_intent,
            intent_since: final(app).intent_since,
            ..*old(app)
        }),
{
}

/// At startup the settings decide whether to connect; the pinned device is not
/// chased then.
pub proof fn the_master_switch_decides_at_startup(app: &mut MyApp, now: u64, r: BleCommand)
    requires
        call_ensures(MyApp::sync_ble_to_config, (app, now), r),
    ensures
        old(app).config.ble.enabled ==> final(app).ble_intent == BleIntent::Connect && r is Connect
            && !r->chase && opt_text(r->mac) == opt_text(old(app).config.ble.mac),
        !old(app).config.ble.enabled ==> final(app).ble_intent == BleIntent::Idle
            && r is Disconnect,
        *final(app) == (MyApp {
            ble_intent: final(app).ble_intent,
            intent_since: final(app).intent_since,
            ..*old(app)
        }),
{
}

/// New settings are all taken over, the MAC input with them. A connection that
/// is wanted is asked for of the device that they pin, chased as before; one that
/// is not wanted stays so.
pub proof fn new_settings_are_taken_over(
    app: &mut MyApp,
    config: AppConfig,
    r: Option<BleCommand>,
)
    requires
        call_ensures(MyApp::apply_config, (app, config), r),
    ensures
        final(app).config == config,
        config.ble.mac is Some ==> final(app).ble_mac_text@ == config.ble.mac->0@,
        config.ble.mac is None ==> final(app).ble_mac_text@.len() == 0,
        r is None <==> old(app).ble_intent == BleIntent::Idle,
        r is Some ==> r->0 is Connect && opt_text((r->0)->mac) == opt_text(config.ble.mac) && ((
        r->0)->chase <==> old(app).ble_intent == BleIntent::ConnectSleeping),
        final(app).ble_intent == old(app).ble_intent,
        final(app).intent_since == old(app).intent_since,
        *final(app) == (MyApp {
            config: final(app).config,
            ble_mac_text: final(app).ble_mac_text,
            ..*old(app)
        }),
{
}

/// The application starts on the map with nothing recorded, nothing selected and
/// no connection; the inputs hold the board's own numbers. The settings that were
/// loaded are its settings, and decide whether it connects and to which device.
pub proof fn the_application_starts_empty(
    defaults: BoardDefaults,
    live_gps: bool,
    compass: bool,
    cached: bool,
    config_path: String,
    loaded: Option<AppConfig>,
    now: u64,
    r: (MyApp, BleCommand),
)
    requires
        call_ensures(
            MyApp::new,
            (defaults, live_gps, compass, cached, config_path, loaded, now),
            r,
        ),
    ensures
        ({
            let (app, command) = r;
            &&& loaded is Some ==> app.config == loaded->0
            &&& loaded is None ==> app.config.ble.enabled && app.config.ble.mac is None
                && is_default_config(app.config)
            &&& app.config.ble.mac is None ==> app.ble_mac_text@.len() == 0
            &&& app.ble_intent == (if app.config.ble.enabled {
                BleIntent::Connect
            } else {
                BleIntent::Idle
            })
            &&& app.config.ble.enabled ==> command is Connect && !command->chase && opt_text(
                command->mac,
            ) == opt_text(app.config.ble.mac)
            &&& !app.config.ble.enabled ==> command is Disconnect
            &&& app.config.ble.mac is Some ==> app.ble_mac_text@
                == app.config.ble.mac->0@
            &&& app.page == Page::MapView && app.layer == MapLayer::Standard
            &&& app.track@.len() == 0 && app.beacon_track@.len() == 0
            &&& app.current is None && app.beacon is None && app.heading is None
            &&& app.compass_heading is None && !app.heading_up && app.tracking_beacon is None
            &&& app.compass == (if compass {
                Some(false)
            } else {
                None
            })
            &&& app.live_gps == live_gps && app.cached == cached
            &&& !app.ble_connected && !app.ble_ack_pending && app.ble_ack is None
            &&& app.telemetry is None && app.board_settings is None && app.board_log is None
            &&& app.ble_interval_text@ == decimal(defaults.update_interval_ms as nat)
            &&& app.sleep_interval_text@ == decimal(defaults.esp_sleep_min_s as nat)
            &&& app.adv_window_text@ == decimal(defaults.esp_adv_default_s as nat)
            &&& app.config_path@ == config_path@ && app.radio_path@ == "RADIO.toml"@
            &&& app.radio is None && app.radio_edit is Idle
            &&& app.select == RegionSelect::Inactive && !app.downloading
            &&& app.points_search@.len() == 0 && app.points_filter == PointFilter::All
            &&& app.selected_marker is None && !app.center_menu && !app.manual_gps_bad
            &&& app.intent_since == now && app.connected_at is None && app.discovered@.len() == 0
        }),
{
}

/// The read-out says that nothing is tried exactly where the link is to be left
/// alone, and otherwise whether it is up; while it is not, how long it was tried,
/// of a wait shorter than a second as if it were one.
pub proof fn the_read_out_tells_the_intent(
    app: MyApp,
    elapsed: u64,
    waiting: u32,
    phrase: String,
    r: String,
)
    requires
        call_ensures(MyApp::ble_intent_text, (&app, elapsed), r),
        call_ensures(secs_text, (waiting,), phrase),
    ensures
        app.ble_intent == BleIntent::Idle ==> r@ == "Not connecting. The board is free to sleep."@,
        app.ble_intent != BleIntent::Idle && app.ble_connected ==> r@
            == "Connected. The board stays awake until you disconnect."@,
        (waiting > 0 && waiting == elapsed as int % 0x1_0000_0000) || (waiting == 1
            && elapsed as int
            % 0x1_0000_0000 == 0) ==> {
            &&& app.ble_intent == BleIntent::Connect && !app.ble_connected ==> r@
                == "Connecting for "@ + phrase@ + "."@
            &&& app.ble_intent == BleIntent::ConnectSleeping && !app.ble_connected ==> r@
                == "Scanning for a sleeping board for "@ + phrase@ + "."@
        },
{
}

/// A write that is sent is the one that was asked for, and is waited for.
pub proof fn a_write_is_sent_and_waited_for(app: &mut MyApp, write: ConfigWrite, r: BleCommand)
    requires
        call_ensures(MyApp::send_config, (app, write), r),
    ensures
        r == BleCommand::Config(write),
        final(app).ble_ack_pending,
        final(app).ble_ack is None,
        *final(app) == (MyApp {
            ble_ack: final(app).ble_ack,
            ble_ack_pending: final(app).ble_ack_pending,
            ..*old(app)
        }),
{
}

/// The settings file lives beside the tile cache where that is in a directory,
/// and under its plain name otherwise.
pub proof fn the_settings_file_is_beside_the_cache(parent: Option<&str>, beside: &str, r: String)
    requires
        call_ensures(default_config_path, (parent, beside), r),
    ensures
        parent is Some && (parent->0)@.len() > 0 ==> r@ == beside@,
        parent is None || (parent->0)@.len() == 0 ==> r@ == "gps-config.toml"@,
{
}

/// A status line, a log line and telemetry are each shown as they came, and
/// change nothing else.
pub proof fn reports_are_kept_as_they_came(
    app: &mut MyApp,
    event: BleEvent,
    reading: Reading,
    now: u64,
)
    requires
        call_ensures(MyApp::take_ble_event, (app, event, reading, now), ()),
    ensures
        event matches BleEvent::Status(text) ==> final(app).ble_status == text && *final(app) == (
        MyApp { ble_status: final(app).ble_status, ..*old(app) }),
        event matches BleEvent::Log(line) ==> final(app).board_log == Some(line) && *final(app) == (
        MyApp { board_log: final(app).board_log, ..*old(app) }),
        event matches BleEvent::Telemetry(t) ==> final(app).telemetry == Some(t) && *final(app) == (
        MyApp { telemetry: final(app).telemetry, ..*old(app) }),
{
}

/// A connection that comes up is timed from now and knows nothing of the board
/// yet; one that goes down is not timed any more. What was recorded, what is
/// intended and the settings stay, and a write that was waited for is waited for
/// still.
pub proof fn a_connection_starts_from_nothing(
    app: &mut MyApp,
    up: bool,
    reading: Reading,
    now: u64,
)
    requires
        call_ensures(MyApp::take_ble_event, (app, BleEvent::Connected(up), reading, now), ()),
    ensures
        final(app).ble_connected == up,
        up ==> final(app).connected_at == Some(now) && final(app).board_settings is None
            && final(app).telemetry is None && !final(app).settings_unsupported,
        !up ==> final(app).connected_at is None
            && final(app).board_settings == old(app).board_settings
            && final(app).telemetry == old(app).telemetry
            && final(app).settings_unsupported == old(app).settings_unsupported,
        *final(app) == (MyApp {
            ble_connected: final(app).ble_connected,
            connected_at: final(app).connected_at,
            board_settings: final(app).board_settings,
            settings_unsupported: final(app).settings_unsupported,
            telemetry: final(app).telemetry,
            ..*old(app)
        }),
{
}

/// Settings that the board reports are its settings. The first report of a
/// connection fills the inputs in, each with the board's own number, but for a
/// zero, which says that the board has none; later reports leave the inputs.
pub proof fn the_first_report_fills_the_inputs(
    app: &mut MyApp,
    s: Settings,
    reading: Reading,
    now: u64,
)
    requires
        call_ensures(MyApp::take_ble_event, (app, BleEvent::Settings(s), reading, now), ()),
    ensures
        final(app).board_settings == Some(s),
        !final(app).settings_unsupported,
        ({
            let first = old(app).board_settings is None;
            &&& first ==> final(app).ble_interval_text@ == decimal(s.notify_interval_ms as nat)
            &&& first && s.sleep_interval_s > 0 ==> final(app).sleep_interval_text@ == decimal(
                s.sleep_interval_s as nat,
            )
            &&& first && s.adv_window_s > 0 ==> final(app).adv_window_text@ == decimal(
                s.adv_window_s as nat,
            )
            &&& !first ==> final(app).ble_interval_text == old(app).ble_interval_text
            &&& !first || s.sleep_interval_s == 0
                ==> final(app).sleep_interval_text == old(app).sleep_interval_text
            &&& !first || s.adv_window_s == 0
                ==> final(app).adv_window_text == old(app).adv_window_text
        }),
        *final(app) == (MyApp {
            board_settings: final(app).board_settings,
            settings_unsupported: final(app).settings_unsupported,
            ble_interval_text: final(app).ble_interval_text,
            sleep_interval_text: final(app).sleep_interval_text,
            adv_window_text: final(app).adv_window_text,
            ..*old(app)
        }),
{
}

/// Settings that do not decode are unknown, and said to be.
pub proof fn unreadable_settings_are_unknown(app: &mut MyApp, reading: Reading, now: u64)
    requires
        call_ensures(
            MyApp::take_ble_event,
            (app, BleEvent::SettingsUnsupported, reading, now),
            (),
        ),
    ensures
        final(app).board_settings is None,
        final(app).settings_unsupported,
        *final(app) == (MyApp {
            board_settings: final(app).board_settings,
            settings_unsupported: final(app).settings_unsupported,
            ..*old(app)
        }),
{
}

proof fn lemma_place(list: Seq<DiscoveredDevice>, address: Seq<char>)
    ensures
        match place_of(list, address) {
            Some(i) => {
                &&& 0 <= i < list.len()
                &&& list[i].address@ == address
                &&& forall|j: int| 0 <= j < i ==> (#[trigger] list[j]).address@ != address
            },
            None => forall|j: int| 0 <= j < list.len() ==> (#[trigger] list[j]).address@ != address,
        },
    decreases list.len(),
{
    if list.len() > 0 {
        let fewer = list.drop_last();
        lemma_place(fewer, address);
        assert(forall|j: int| 0 <= j < fewer.len() ==> fewer[j] == #[trigger] list[j]);
    }
}

/// A board that answers is in the list as it answered last, in the place it had
/// there, or at the end where it is new. No other board moves or changes, and
/// nothing else does.
pub proof fn a_board_is_listed_as_it_answered_last(
    app: &mut MyApp,
    device: DiscoveredDevice,
    reading: Reading,
    now: u64,
    j: int,
)
    requires
        call_ensures(
            MyApp::take_ble_event,
            (app, BleEvent::Discovered(device), reading, now),
            (),
        ),
    ensures
        ({
            let (before, after) = (old(app).discovered@, final(app).discovered@);
            let known = exists|i: int|
                0 <= i < before.len() && (#[trigger] before[i]).address@ == device.address@;
            &&& known ==> after.len() == before.len() && after.contains(device)
            &&& !known ==> after.len() == before.len() + 1 && after.last() == device
            &&& 0 <= j < before.len() && before[j].address@ != device.address@ ==> after[j]
                == before[j]
            &&& 0 <= j < before.len() ==> after[j].address@ == before[j].address@
        }),
        *final(app) == (MyApp { discovered: final(app).discovered, ..*old(app) }),
{
    let (before, after) = (old(app).discovered@, final(app).discovered@);
    lemma_place(before, device.address@);
    match place_of(before, device.address@) {
        Some(i) => {
            assert(before[i].address@ == device.address@);
            assert(after[i] == device);
        },
        None => {},
    }
}

/// An ack ends the wait and is shown: as good news exactly where the board
/// applied the setting.
pub proof fn an_ack_is_shown(app: &mut MyApp, ack: Ack, reading: Reading, now: u64, m: Result<
    String,
    String,
>)
    requires
        call_ensures(MyApp::take_ble_event, (app, BleEvent::Ack(ack), reading, now), ()),
        call_ensures(ack_message, (&ack,), m),
    ensures
        !final(app).ble_ack_pending,
        feedback(final(app).ble_ack) == Some(said(m)),
        m is Ok <==> ack.status == AckStatus::Applied,
        *final(app) == (MyApp {
            ble_ack: final(app).ble_ack,
            ble_ack_pending: final(app).ble_ack_pending,
            ..*old(app)
        }),
{
}

/// What a setting is called in the ack line.
pub open spec fn called(id: SettingId) -> Seq<char> {
    match id {
        SettingId::UpdateInterval => "notify interval"@,
        SettingId::Power => "GPS/LoRa power"@,
        SettingId::WioSleep => "WIO-E5 sleep"@,
        SettingId::GpsSleep => "GPS backup mode"@,
        SettingId::EspSleep => "wake-check interval"@,
        SettingId::Other => "setting"@,
    }
}

/// An applied interval is shown as the number that the board applied, whatever
/// was asked for, and without one as zero; a sleep of zero as disabled. The
/// settings without a number are shown by their name.
pub proof fn an_ack_shows_what_was_applied(ack: Ack, n: u32, phrase: String, m: Result<
    String,
    String,
>)
    requires
        call_ensures(ack_message, (&ack,), m),
        call_ensures(secs_text, (n,), phrase),
        ack.status == AckStatus::Applied,
        ack.value_u32 == Some(n) || (ack.value_u32 is None && n == 0),
    ensures
        m is Ok,
        ack.id == SettingId::UpdateInterval ==> (m->Ok_0)@ == "Board applied: notify interval "@
            + decimal(n as nat) + " ms"@,
        ack.id == SettingId::EspSleep && n == 0 ==> (m->Ok_0)@ == "Board applied: sleep disabled"@,
        ack.id == SettingId::EspSleep && n > 0 ==> (m->Ok_0)@ == "Board applied: wake check every "@
            + phrase@,
        ack.id != SettingId::UpdateInterval && ack.id != SettingId::EspSleep ==> (m->Ok_0)@
            == "Board applied: "@ + called(ack.id),
{
}

/// A rejection names the setting and why: each reason its own words, an unknown
/// one its two hexadecimal digits.
pub proof fn a_rejection_names_setting_and_reason(ack: Ack, m: Result<String, String>)
    requires
        call_ensures(ack_message, (&ack,), m),
        ack.status != AckStatus::Applied,
    ensures
        m is Err,
        ({
            let (name, why) = (called(ack.id), (m->Err_0)@);
            &&& ack.status == AckStatus::UnknownId ==> why
                == "Board rejected: it does not know the "@ + name + " setting"@
            &&& ack.status == AckStatus::BadValue ==> why == "Board rejected: bad value for "@
                + name
            &&& ack.status == AckStatus::WioError ==> why
                == "The board could not reach the WIO-E5 to set "@ + name + " (link error)."@
            &&& ack.status == AckStatus::WioTimeout ==> why
                == "The board could not reach the WIO-E5 to set "@ + name + " (no reply)."@
            &&& ack.status == AckStatus::BadState ==> why == "Board rejected "@ + name
                + ": not valid in its current state"@
            &&& ack.status is Other ==> why.take(why.len() - 4) == "Board rejected "@ + name
                + ": status "@ && why[why.len() - 4] == '0' && why[why.len() - 3] == 'x'
        }),
{
    let (name, why) = (called(ack.id), (m->Err_0)@);
    if ack.status is Other {
        assert(why.take(why.len() - 4) =~= "Board rejected "@ + name + ": status "@);
    }
}

/// The two digits of an unknown status spell it in hexadecimal, the higher first,
/// in small letters.
pub proof fn an_unknown_status_is_spelled(ack: Ack, status: u8, m: Result<String, String>)
    requires
        call_ensures(ack_message, (&ack,), m),
        ack.status == AckStatus::Other(status),
    ensures
        ({
            let why = (m->Err_0)@;
            let (high, low) = (why[why.len() - 2] as int, why.last() as int);
            let (a, b) = (
                if high <= 57 {
                    high - 48
                } else {
                    high - 87
                },
                if low <= 57 {
                    low - 48
                } else {
                    low - 87
                },
            );
            &&& 0 <= a < 16 && 0 <= b < 16
            &&& 48 <= high <= 57 || 97 <= high <= 102
            &&& 48 <= low <= 57 || 97 <= low <= 102
            &&& status == 16 * a + b
        }),
{
    let why = (m->Err_0)@;
    let (h, l) = (status as int / 16, status as int % 16);
    assert(why[why.len() - 2] == crate::config::hex_char(h));
    assert(why.last() == crate::config::hex_char(l));
}

} // verus!
