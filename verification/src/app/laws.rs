//! What holds of the application across its functions.

use crate::app::{
    adopted, asks_for, event_taken, goes_along, recorded, shown_wait, text_or_empty, BleIntent,
    MyApp, Reading,
};
use crate::ble::{BleCommand, BleEvent, Position};
use crate::config::{is_default_config, AppConfig};
use crate::durations::{only_zero_is_off, secs_phrase};
use crate::link::{wish_after, Mode, Wish};
use crate::points::{PointSource, TrackPoint};
use crate::text::opt_text;
use vstd::prelude::*;

verus! {

/// A button's one command makes the worker want what the user intends: to be
/// left alone, or to be connected to the pinned device, chasing it where it may
/// sleep.
pub proof fn one_command_says_it_all(
    w: Wish,
    command: BleCommand,
    intent: BleIntent,
    mac: Option<Seq<char>>,
)
    requires
        asks_for(command, intent, mac),
        w.mode != Mode::Closed,
    ensures
        ({
            let after = wish_after(w, command);
            &&& intent == BleIntent::Idle ==> after.mode == Mode::Idle
            &&& intent != BleIntent::Idle ==> after.mode == Mode::Connect && after.mac == mac
                && after.chase == (intent == BleIntent::ConnectSleeping)
            &&& after.writes == w.writes
        }),
{
}

/// Nothing that the worker reports changes what was asked for, or the settings:
/// a connection that comes up or drops leaves the intent as it is, so a board
/// that sleeps again is still chased, and a Disconnect never becomes a saved
/// preference.
pub proof fn events_leave_the_intent_alone(
    before: MyApp,
    after: MyApp,
    event: BleEvent,
    reading: Reading,
    now: u64,
)
    requires
        event_taken(before, after, event, reading, now),
    ensures
        after.ble_intent == before.ble_intent,
        after.intent_since == before.intent_since,
        after.config == before.config,
{
}

/// A wait never reads as "off", however short it is.
pub proof fn a_wait_is_never_off(elapsed: u64)
    ensures
        secs_phrase(shown_wait(elapsed)) != "off"@,
{
    only_zero_is_off(shown_wait(elapsed));
}

/// Once a write is asked for, no other is until the board answers: only an ack
/// ends the wait.
pub proof fn only_an_ack_ends_the_wait(
    before: MyApp,
    after: MyApp,
    event: BleEvent,
    reading: Reading,
    now: u64,
)
    requires
        event_taken(before, after, event, reading, now),
        before.ble_ack_pending,
    ensures
        !(event is Ack) ==> after.ble_ack_pending && !after.takes_writes(),
        event is Ack ==> !after.ble_ack_pending && after.ble_ack is Some,
{
}

/// Within one connection the inputs are filled in once: after a settings
/// report, further reports leave anything half-typed alone.
pub proof fn inputs_are_filled_in_once(
    before: MyApp,
    after: MyApp,
    event: BleEvent,
    reading: Reading,
    now: u64,
)
    requires
        event_taken(before, after, event, reading, now),
        before.board_settings is Some,
    ensures
        after.ble_interval_text == before.ble_interval_text,
        after.sleep_interval_text == before.sleep_interval_text,
        after.adv_window_text == before.adv_window_text,
        !(event is Connected) && !(event is SettingsUnsupported) ==> after.board_settings is Some,
{
}

/// The board's settings are either what it reported last over this connection
/// or unknown; they are never made up. A blob that this build cannot decode
/// makes them unknown, and says so.
pub open spec fn settings_are_reported(app: MyApp) -> bool {
    app.settings_unsupported ==> app.board_settings is None
}

/// Settings that were not reported are never shown.
pub proof fn settings_are_never_made_up(
    before: MyApp,
    after: MyApp,
    event: BleEvent,
    reading: Reading,
    now: u64,
)
    requires
        event_taken(before, after, event, reading, now),
        settings_are_reported(before),
    ensures
        settings_are_reported(after),
        event == BleEvent::Connected(true) ==> after.board_settings is None && after.telemetry is None,
        after.board_settings is Some && after.board_settings != before.board_settings
            ==> event == BleEvent::Settings(after.board_settings->0),
{
}

/// A connection is timed from the moment it came up, and only while it is up.
pub proof fn connections_are_timed(
    before: MyApp,
    after: MyApp,
    event: BleEvent,
    reading: Reading,
    now: u64,
)
    requires
        event_taken(before, after, event, reading, now),
        before.ble_connected == before.connected_at is Some,
    ensures
        after.ble_connected == after.connected_at is Some,
        event == BleEvent::Connected(true) ==> after.connected_at == Some(now),
{
}

/// New settings leave what the user intends alone: after a Disconnect nothing is
/// asked of the worker, so the board stays free to sleep, and a connection that
/// is wanted is asked for of the device that is pinned now, chased as before.
pub proof fn new_settings_leave_the_intent_alone(
    before: MyApp,
    after: MyApp,
    config: AppConfig,
    command: Option<BleCommand>,
    w: Wish,
)
    requires
        adopted(before, after, config),
        goes_along(command, before.ble_intent, opt_text(config.ble.mac)),
        w.mode != Mode::Closed,
    ensures
        after.ble_intent == before.ble_intent,
        after.intent_since == before.intent_since,
        before.ble_intent == BleIntent::Idle ==> command is None,
        before.ble_intent != BleIntent::Idle ==> command is Some && wish_after(w, command->0)
            == (Wish {
            mode: Mode::Connect,
            mac: opt_text(config.ble.mac),
            chase: before.ble_intent == BleIntent::ConnectSleeping,
            ..w
        }),
{
}

/// A reset is undone by loading the settings as they were before it: every
/// setting is back, and the MAC input with them; nothing else has changed.
pub proof fn a_load_undoes_a_reset(
    before: MyApp,
    reset: MyApp,
    after: MyApp,
    defaults: AppConfig,
)
    requires
        is_default_config(defaults),
        adopted(before, reset, defaults),
        adopted(reset, after, before.config),
    ensures
        after.config == before.config,
        after.ble_mac_text@ == text_or_empty(before.config.ble.mac),
        after == (MyApp { ble_mac_text: after.ble_mac_text, ..before }),
{
}

/// A track only ever grows at its end, by one point at a time: a reading is
/// recorded after all that was recorded before, or not at all, and the first
/// one always is. What is recorded is the reading: its position, its text and its
/// time.
pub proof fn recording_only_appends(
    before: Seq<TrackPoint>,
    after: Seq<TrackPoint>,
    pos: Position,
    source: PointSource,
    reading: Reading,
    min_distance: u64,
)
    requires
        recorded(before, after, pos, source, reading, min_distance),
    ensures
        before.is_prefix_of(after),
        after.len() <= before.len() + 1,
        before.len() == 0 ==> after.len() == 1,
        after != before ==> after.last().pos == pos && after.last().source == source,
        after != before ==> after.last().time == reading.time && after.last().coords
            == reading.coords,
{
}

/// No event from the worker touches the phone's track, and each leaves the
/// beacon's track as it is or longer by one point at its end.
pub proof fn tracks_only_grow(
    before: MyApp,
    after: MyApp,
    event: BleEvent,
    reading: Reading,
    now: u64,
)
    requires
        event_taken(before, after, event, reading, now),
    ensures
        after.track@ == before.track@,
        after.beacon_track@ == before.beacon_track@ || (after.beacon_track@.len()
            == before.beacon_track@.len() + 1 && after.beacon_track@.drop_last()
            == before.beacon_track@),
{
    if after.beacon_track@ != before.beacon_track@ {
        assert(after.beacon_track@.drop_last() =~= before.beacon_track@);
    }
}

} // verus!
