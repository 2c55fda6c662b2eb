//! The link to the beacon, on both transports.

use gps_gui_rs::ble::{BleCommand, BleEvent, ConfigWrite, DiscoveredDevice, Settings, Telemetry};
use gps_gui_rs::link::android::{self, permission_step, AndroidLink, PermissionStep};
use gps_gui_rs::link::desktop::{self, find_match, Advert, DesktopLink, Offer};
use gps_gui_rs::link::{incoming_event, Channel, Incoming, Mode, Uuids, Wanted};

fn uuids() -> Uuids {
    Uuids {
        position: "AA01".into(),
        ack: "aa02".into(),
        telemetry: "aa03".into(),
        log: "aa04".into(),
        settings: "aa05".into(),
    }
}

fn connect(mac: Option<&str>, chase: bool) -> BleCommand {
    BleCommand::Connect { mac: mac.map(str::to_string), chase }
}

fn device(address: &str) -> DiscoveredDevice {
    DiscoveredDevice { address: address.into(), name: Some("GPS".into()), rssi: Some(-60) }
}

const WRITE: ConfigWrite = ConfigWrite::Seconds { id: 7, secs: 300 };

#[test]
fn commands_say_what_is_wanted() {
    let mut w = Wanted::new();
    assert_eq!(w.mode, Mode::Idle);
    w.take(connect(Some("aa"), true));
    assert_eq!((w.mode, w.mac.as_deref(), w.chase), (Mode::Connect, Some("aa"), true));
    w.take(BleCommand::Scan);
    assert_eq!(w.mode, Mode::Survey);
    w.take(BleCommand::Disconnect);
    assert_eq!(w.mode, Mode::Idle);
}

/// The queue is emptied in one pass, so a later command overwrites an earlier
/// one, but for the config writes.
#[test]
fn last_command_of_a_queue_wins() {
    let mut w = Wanted::new();
    w.drain_commands(vec![
        connect(Some("aa"), false),
        BleCommand::Config(ConfigWrite::Interval(1)),
        BleCommand::Disconnect,
        BleCommand::Config(ConfigWrite::Interval(2)),
        connect(None, true),
    ]);
    assert_eq!((w.mode, w.mac.as_deref(), w.chase), (Mode::Connect, None, true));
    assert_eq!(w.writes, [ConfigWrite::Interval(1), ConfigWrite::Interval(2)]);
}

#[test]
fn a_closed_link_wants_nothing() {
    let mut w = Wanted::new();
    w.close();
    w.drain_commands(vec![connect(None, false), BleCommand::Config(WRITE)]);
    assert_eq!(w.mode, Mode::Closed);
    assert!(w.writes.is_empty());
}

#[test]
fn channels_are_told_apart_in_any_case() {
    let u = uuids();
    assert_eq!(u.channel("aa01"), Some(Channel::Position));
    assert_eq!(u.channel("AA02"), Some(Channel::Ack));
    assert_eq!(u.channel("aA03"), Some(Channel::Telemetry));
    assert_eq!(u.channel("aa04"), Some(Channel::Log));
    assert_eq!(u.channel("aa05"), Some(Channel::Settings));
    assert_eq!(u.channel("aa06"), None);
    assert_eq!(u.channel(""), None);
}

#[test]
fn what_does_not_decode_is_dropped_but_for_the_settings() {
    assert!(incoming_event(Incoming::Position(None)).is_none());
    assert!(incoming_event(Incoming::Ack(None)).is_none());
    assert!(incoming_event(Incoming::Telemetry(None)).is_none());
    assert!(matches!(
        incoming_event(Incoming::Settings(None)),
        Some(BleEvent::SettingsUnsupported)
    ));
    let s = Settings {
        pwr_en: true,
        notify_interval_ms: 1,
        sleep_interval_s: 2,
        adv_window_s: 3,
    };
    assert!(matches!(
        incoming_event(Incoming::Settings(Some(s))),
        Some(BleEvent::Settings(got)) if got == s
    ));
    assert!(matches!(
        incoming_event(Incoming::Log("hello".into())),
        Some(BleEvent::Log(line)) if line == "hello"
    ));
    let t = Telemetry {
        gps_fix: true,
        sd_ok: false,
        cfg_loaded: true,
        sats: 4,
        secs_since_rx: 5,
        last_rssi: -6,
        last_snr_cb: 7,
        rx_count: 8,
        tx_count: 9,
    };
    assert!(matches!(
        incoming_event(Incoming::Telemetry(Some(t))),
        Some(BleEvent::Telemetry(got)) if got == t
    ));
}

// --- Android ---

fn a_word(a: &android::Action) -> String {
    match a {
        android::Action::Status(s) => format!("say {s}"),
        android::Action::Connected(up) => format!("up {up}"),
        android::Action::Discovered(d) => format!("found {}", d.address),
        android::Action::Decode(c) => format!("decode {c:?}"),
        android::Action::Flush => "flush".into(),
        android::Action::AskPermissions => "ask".into(),
        android::Action::StartScan => "scan".into(),
        android::Action::StopScan => "stop".into(),
        android::Action::Dial(m) => format!("dial {m}"),
        android::Action::DiscoverServices => "discover".into(),
        android::Action::Subscribe(c) => format!("subscribe {c:?}"),
        android::Action::ReadSettings => "read".into(),
        android::Action::Write(w) => format!("write {w:?}"),
        android::Action::HangUp => "hang up".into(),
        android::Action::Await(ms) => format!("await {ms}"),
        android::Action::Rest(ms) => format!("rest {ms}"),
        android::Action::Exit => "exit".into(),
    }
}

fn a_step(link: &mut AndroidLink, event: android::Event) -> Vec<String> {
    link.step(event).iter().map(a_word).collect()
}

/// A transport with the permissions granted.
fn a_link() -> AndroidLink {
    let mut link = AndroidLink::new(uuids());
    link.permitted = true;
    link
}

/// Brings the transport from a dialed device to the pump.
fn a_subscribe(link: &mut AndroidLink) {
    assert_eq!(a_step(link, android::Event::Done(true)), ["await 20000"]);
    assert!(a_step(link, android::Event::State(1)).is_empty());
    assert_eq!(a_step(link, android::Event::State(2)), ["discover"]);
    assert_eq!(a_step(link, android::Event::Done(true)), ["await 10000"]);
    assert!(a_step(link, android::Event::Services(129)).is_empty());
    assert_eq!(a_step(link, android::Event::Services(0)), ["subscribe Position"]);
    for next in ["Ack", "Telemetry", "Log", "Settings"] {
        assert_eq!(a_step(link, android::Event::Done(true)), ["await 5000"]);
        assert!(a_step(link, android::Event::Descriptor(5)).is_empty());
        assert_eq!(a_step(link, android::Event::Descriptor(0)), [format!("subscribe {next}")]);
    }
    assert_eq!(a_step(link, android::Event::Done(true)), ["await 5000"]);
    assert_eq!(
        a_step(link, android::Event::Descriptor(0)),
        ["up true", "say connected to AA:01", "read"]
    );
}

fn a_connected() -> AndroidLink {
    let mut link = a_link();
    link.wanted.take(connect(Some("AA:01"), false));
    assert_eq!(
        a_step(&mut link, android::Event::Poll),
        ["flush", "say connecting to AA:01...", "dial AA:01"]
    );
    a_subscribe(&mut link);
    link
}

#[test]
fn android_asks_for_permissions_first() {
    let mut link = AndroidLink::new(uuids());
    assert_eq!(a_step(&mut link, android::Event::Poll), ["rest 200"]);
    link.wanted.take(connect(None, false));
    assert_eq!(
        a_step(&mut link, android::Event::Poll),
        ["say waiting for Bluetooth permissions...", "ask"]
    );
    assert!(a_step(&mut link, android::Event::Done(true)).is_empty());
    assert_eq!(
        a_step(&mut link, android::Event::Poll),
        ["flush", "say scanning for GPS beacon...", "scan"]
    );
    let mut link = AndroidLink::new(uuids());
    link.wanted.take(connect(None, false));
    a_step(&mut link, android::Event::Poll);
    assert_eq!(a_step(&mut link, android::Event::Done(false)), ["exit"]);
}

#[test]
fn android_pins_go_straight_and_chases_listen() {
    a_connected();
    let mut link = a_link();
    link.wanted.take(connect(Some("aa:01"), true));
    assert_eq!(
        a_step(&mut link, android::Event::Poll),
        ["flush", "say waiting for a wake window...", "scan"]
    );
    assert!(a_step(&mut link, android::Event::Done(true)).is_empty());
    // Another board answers the same service filter.
    assert!(a_step(&mut link, android::Event::Seen(device("BB:02"))).is_empty());
    assert_eq!(
        a_step(&mut link, android::Event::Seen(device("AA:01"))),
        ["stop", "say connecting to AA:01...", "dial AA:01"]
    );
    a_subscribe(&mut link);
}

#[test]
fn android_takes_the_first_board_without_a_pin() {
    let mut link = a_link();
    link.wanted.take(connect(None, false));
    a_step(&mut link, android::Event::Poll);
    a_step(&mut link, android::Event::Done(true));
    assert!(a_step(&mut link, android::Event::Poll).is_empty());
    assert_eq!(
        a_step(&mut link, android::Event::Seen(device("AA:01")))[0..1],
        ["stop".to_string()]
    );
}

#[test]
fn android_scan_stops_when_nothing_is_wanted() {
    let mut link = a_link();
    link.wanted.take(connect(None, false));
    a_step(&mut link, android::Event::Poll);
    a_step(&mut link, android::Event::Done(true));
    link.wanted.take(BleCommand::Disconnect);
    assert_eq!(a_step(&mut link, android::Event::Poll), ["stop"]);
    assert_eq!(a_step(&mut link, android::Event::Poll), ["rest 200"]);
    link.wanted.close();
    assert_eq!(a_step(&mut link, android::Event::Poll), ["exit"]);
}

#[test]
fn android_surveys_without_connecting() {
    let mut link = a_connected();
    link.wanted.take(BleCommand::Scan);
    assert_eq!(
        a_step(&mut link, android::Event::Poll),
        ["hang up", "up false", "say disconnected"]
    );
    assert_eq!(
        a_step(&mut link, android::Event::Poll),
        ["flush", "say scanning for GPS beacon...", "scan"]
    );
    a_step(&mut link, android::Event::Done(true));
    for address in ["AA:01", "BB:02", "AA:01"] {
        assert_eq!(
            a_step(&mut link, android::Event::Seen(device(address))),
            [format!("found {address}")]
        );
    }
    assert!(a_step(&mut link, android::Event::Poll).is_empty());
    link.wanted.take(connect(Some("BB:02"), false));
    assert_eq!(a_step(&mut link, android::Event::Poll), ["stop"]);
    assert_eq!(
        a_step(&mut link, android::Event::Poll),
        ["flush", "say connecting to BB:02...", "dial BB:02"]
    );
}

#[test]
fn android_failures_hang_up_and_retry() {
    let cases: [(&str, Vec<android::Event>); 6] = [
        ("connect call failed", vec![android::Event::Done(false)]),
        ("connect timed out", vec![android::Event::Done(true), android::Event::Timeout]),
        (
            "service discovery call failed",
            vec![android::Event::Done(true), android::Event::State(2), android::Event::Done(false)],
        ),
        (
            "service discovery timed out",
            vec![
                android::Event::Done(true),
                android::Event::State(2),
                android::Event::Done(true),
                android::Event::Gone,
            ],
        ),
        (
            "subscribe call failed",
            vec![
                android::Event::Done(true),
                android::Event::State(2),
                android::Event::Done(true),
                android::Event::Services(0),
                android::Event::Done(false),
            ],
        ),
        (
            "subscribe timed out",
            vec![
                android::Event::Done(true),
                android::Event::State(2),
                android::Event::Done(true),
                android::Event::Services(0),
                android::Event::Done(true),
                android::Event::Timeout,
            ],
        ),
    ];
    for (why, events) in cases {
        let mut link = a_link();
        link.wanted.take(connect(Some("AA:01"), false));
        let mut last = a_step(&mut link, android::Event::Poll);
        for event in events {
            last = a_step(&mut link, event);
        }
        assert_eq!(
            last,
            ["hang up".to_string(), "up false".into(), format!("say {why}; retrying"), "rest 2000".into()]
        );
        assert_eq!(a_step(&mut link, android::Event::Poll)[0], "flush");
    }
    let mut link = a_link();
    link.wanted.take(connect(None, false));
    a_step(&mut link, android::Event::Poll);
    assert_eq!(
        a_step(&mut link, android::Event::Done(false))[2],
        "say scan failed (Bluetooth off?); retrying"
    );
}

/// The c3 beacon has no board status: its subscriptions fail and it connects
/// all the same.
#[test]
fn android_board_status_is_optional() {
    let mut link = a_link();
    link.wanted.take(connect(Some("AA:01"), false));
    for event in [
        android::Event::Poll,
        android::Event::Done(true),
        android::Event::State(2),
        android::Event::Done(true),
        android::Event::Services(0),
        android::Event::Done(true),
        android::Event::Descriptor(0),
        android::Event::Done(true),
    ] {
        a_step(&mut link, event);
    }
    assert_eq!(a_step(&mut link, android::Event::Descriptor(0)), ["subscribe Telemetry"]);
    assert_eq!(a_step(&mut link, android::Event::Done(false)), ["subscribe Log"]);
    assert_eq!(a_step(&mut link, android::Event::Done(true)), ["await 5000"]);
    assert_eq!(a_step(&mut link, android::Event::Timeout), ["subscribe Settings"]);
    assert_eq!(a_step(&mut link, android::Event::Done(false))[0], "up true");
}

#[test]
fn android_pumps_notifications_and_writes() {
    let mut link = a_connected();
    assert!(a_step(&mut link, android::Event::Poll).is_empty());
    assert_eq!(a_step(&mut link, android::Event::Notify("aa05".into())), ["decode Settings"]);
    assert!(a_step(&mut link, android::Event::Notify("zz".into())).is_empty());
    link.wanted.take(BleCommand::Config(ConfigWrite::Interval(9)));
    link.wanted.take(BleCommand::Config(WRITE));
    assert_eq!(
        a_step(&mut link, android::Event::Poll),
        ["write Interval(9)", "write Seconds { id: 7, secs: 300 }"]
    );
    assert!(a_step(&mut link, android::Event::Poll).is_empty());
    assert_eq!(a_step(&mut link, android::Event::Done(false)), ["say config write failed"]);
    assert!(a_step(&mut link, android::Event::Written(0)).is_empty());
    assert_eq!(
        a_step(&mut link, android::Event::Written(-3)),
        ["say config write rejected (status -3)"]
    );
    assert_eq!(
        a_step(&mut link, android::Event::State(0))[2],
        "say connection lost; retrying"
    );
}

/// A write that waited goes out as the connection starts, whatever is wanted by
/// then.
#[test]
fn android_sends_waiting_writes_on_connect() {
    let mut link = a_link();
    link.wanted.take(connect(Some("AA:01"), false));
    link.wanted.take(BleCommand::Config(WRITE));
    a_step(&mut link, android::Event::Poll);
    link.wanted.take(BleCommand::Disconnect);
    a_step(&mut link, android::Event::Done(true));
    a_step(&mut link, android::Event::State(2));
    a_step(&mut link, android::Event::Done(true));
    a_step(&mut link, android::Event::Services(0));
    for _ in 0..4 {
        a_step(&mut link, android::Event::Done(true));
        assert_eq!(a_step(&mut link, android::Event::Descriptor(0)).len(), 1);
    }
    a_step(&mut link, android::Event::Done(true));
    assert_eq!(
        a_step(&mut link, android::Event::Descriptor(0)),
        ["up true", "say connected to AA:01", "read", "write Seconds { id: 7, secs: 300 }"]
    );
    assert!(link.wanted.writes.is_empty());
    assert_eq!(
        a_step(&mut link, android::Event::Poll),
        ["hang up", "up false", "say disconnected"]
    );
}

#[test]
fn android_switches_to_another_pin() {
    let mut link = a_connected();
    link.wanted.take(BleCommand::Config(WRITE));
    link.wanted.take(connect(Some("BB:02"), false));
    assert_eq!(
        a_step(&mut link, android::Event::Poll),
        [
            "hang up",
            "up false",
            "hang up",
            "up false",
            "say switching device; retrying",
            "rest 2000"
        ]
    );
    // The write still waits, for the device that is wanted now.
    assert_eq!(link.wanted.writes, [WRITE]);
    let mut link = a_connected();
    assert_eq!(a_step(&mut link, android::Event::Gone)[2], "say worker gone; retrying");
}

#[test]
fn permissions_are_asked_for_now_and_then() {
    assert_eq!(permission_step(30, false, None), PermissionStep::Granted);
    assert_eq!(permission_step(31, true, None), PermissionStep::Granted);
    assert_eq!(permission_step(31, false, None), PermissionStep::Ask);
    assert_eq!(permission_step(34, false, Some(20_000)), PermissionStep::Wait);
    assert_eq!(permission_step(34, false, Some(20_001)), PermissionStep::Ask);
}

// --- desktop ---

fn d_word(a: &desktop::Action) -> String {
    match a {
        desktop::Action::Status(s) => format!("say {s}"),
        desktop::Action::Connected(up) => format!("up {up}"),
        desktop::Action::Discovered(d) => format!("found {}", d.address),
        desktop::Action::Decode(c) => format!("decode {c:?}"),
        desktop::Action::FindAdapter => "adapter".into(),
        desktop::Action::StartScan => "scan".into(),
        desktop::Action::StopScan => "stop".into(),
        desktop::Action::Look => "look".into(),
        desktop::Action::CheckLink => "check".into(),
        desktop::Action::Dial(m) => format!("dial {m}"),
        desktop::Action::DiscoverServices => "discover".into(),
        desktop::Action::ListOffer => "offer".into(),
        desktop::Action::Subscribe(c) => format!("subscribe {c:?}"),
        desktop::Action::OpenStream => "stream".into(),
        desktop::Action::ReadSettings => "read".into(),
        desktop::Action::Write(w) => format!("write {w:?}"),
        desktop::Action::HangUp => "hang up".into(),
        desktop::Action::Rest(ms) => format!("rest {ms}"),
        desktop::Action::Exit => "exit".into(),
    }
}

fn d_step(link: &mut DesktopLink, event: desktop::Event) -> Vec<String> {
    link.step(event).iter().map(d_word).collect()
}

fn advert(address: &str, name: Option<&str>, service: bool) -> Advert {
    Advert {
        device: DiscoveredDevice {
            address: address.into(),
            name: name.map(str::to_string),
            rssi: None,
        },
        service,
    }
}

const FULL: Offer = Offer {
    position: true,
    ack: true,
    config: true,
    telemetry: true,
    log: true,
    settings: true,
};

/// Scans for a command until the device at `AA:01` answers.
fn d_scanning(command: BleCommand, status: &str) -> DesktopLink {
    let mut link = DesktopLink::new(uuids(), "Beacon".into());
    assert_eq!(d_step(&mut link, desktop::Event::Poll), ["rest 200"]);
    link.wanted.take(command);
    assert_eq!(d_step(&mut link, desktop::Event::Poll), ["adapter"]);
    assert_eq!(
        d_step(&mut link, desktop::Event::Adapter(true)),
        [format!("say {status}"), "scan".into()]
    );
    assert!(d_step(&mut link, desktop::Event::Done).is_empty());
    assert_eq!(d_step(&mut link, desktop::Event::Poll), ["look"]);
    link
}

fn d_connected(offer: Offer) -> (DesktopLink, Vec<String>) {
    let mut link = d_scanning(connect(None, false), "scanning for GPS beacon...");
    assert_eq!(d_step(&mut link, desktop::Event::Seen(Vec::new())), ["rest 500"]);
    assert_eq!(
        d_step(
            &mut link,
            desktop::Event::Seen(vec![advert("CC:03", Some("other"), false), advert("AA:01", None, true)])
        ),
        ["stop", "check"]
    );
    assert_eq!(
        d_step(&mut link, desktop::Event::Linked(false)),
        ["say connecting to AA:01...", "dial AA:01"]
    );
    assert_eq!(d_step(&mut link, desktop::Event::Done), ["discover"]);
    assert_eq!(d_step(&mut link, desktop::Event::Done), ["offer"]);
    let mut all = d_step(&mut link, desktop::Event::Offered(offer));
    while all.last().unwrap() != "stream" {
        all.extend(d_step(&mut link, desktop::Event::Done));
    }
    all.extend(d_step(&mut link, desktop::Event::Done));
    (link, all)
}

#[test]
fn desktop_connects_and_subscribes_to_what_is_offered() {
    let (_, all) = d_connected(FULL);
    assert_eq!(
        all,
        [
            "subscribe Position",
            "subscribe Ack",
            "subscribe Telemetry",
            "subscribe Log",
            "subscribe Settings",
            "stream",
            "up true",
            "say connected to AA:01",
            "read"
        ]
    );
    let (_, all) = d_connected(Offer { telemetry: false, log: true, settings: false, ..FULL });
    assert_eq!(
        all,
        [
            "subscribe Position",
            "subscribe Ack",
            "subscribe Log",
            "stream",
            "up true",
            "say connected to AA:01"
        ]
    );
}

#[test]
fn desktop_names_a_missing_characteristic() {
    for (offer, what) in [
        (Offer { position: false, ..FULL }, "position"),
        (Offer { ack: false, ..FULL }, "ack"),
        (Offer { config: false, ..FULL }, "config"),
    ] {
        let mut link = d_scanning(connect(None, false), "scanning for GPS beacon...");
        for event in [
            desktop::Event::Seen(vec![advert("AA:01", None, true)]),
            desktop::Event::Linked(false),
            desktop::Event::Done,
            desktop::Event::Done,
        ] {
            d_step(&mut link, event);
        }
        assert_eq!(
            d_step(&mut link, desktop::Event::Offered(offer)),
            [
                "hang up".to_string(),
                "up false".into(),
                "up false".into(),
                format!("say {what} characteristic missing; retrying"),
                "rest 2000".into()
            ]
        );
    }
}

#[test]
fn desktop_clears_a_half_open_device() {
    let mut link = d_scanning(connect(Some("aa:01"), true), "waiting for a wake window...");
    assert_eq!(
        d_step(
            &mut link,
            desktop::Event::Seen(vec![advert("BB:02", None, true), advert("AA:01", None, false)])
        ),
        ["stop", "check"]
    );
    assert_eq!(
        d_step(&mut link, desktop::Event::Linked(true)),
        ["hang up", "rest 300", "say connecting to AA:01...", "dial AA:01"]
    );
    assert_eq!(
        d_step(&mut link, desktop::Event::Failed("busy".into())),
        ["hang up", "up false", "up false", "say connect failed: busy; retrying", "rest 2000"]
    );
}

#[test]
fn desktop_failures_say_why() {
    let mut link = DesktopLink::new(uuids(), "Beacon".into());
    link.wanted.take(connect(None, false));
    d_step(&mut link, desktop::Event::Poll);
    assert_eq!(
        d_step(&mut link, desktop::Event::Adapter(false)),
        ["say no Bluetooth adapter found", "rest 3000"]
    );
    d_step(&mut link, desktop::Event::Poll);
    d_step(&mut link, desktop::Event::Adapter(true));
    assert_eq!(
        d_step(&mut link, desktop::Event::Failed("off".into())),
        ["up false", "say scan failed: off; retrying", "rest 2000"]
    );
    let fail = |n: usize, what: &str| {
        let mut link = d_scanning(connect(None, false), "scanning for GPS beacon...");
        d_step(&mut link, desktop::Event::Seen(vec![advert("AA:01", Some("Beacon"), false)]));
        d_step(&mut link, desktop::Event::Linked(false));
        for i in 0..n {
            if i == 2 {
                d_step(&mut link, desktop::Event::Offered(FULL));
            } else {
                d_step(&mut link, desktop::Event::Done);
            }
        }
        assert_eq!(
            d_step(&mut link, desktop::Event::Failed("x".into()))[3],
            format!("say {what}: x; retrying")
        );
    };
    fail(1, "discovery failed");
    fail(3, "subscribe failed");
    fail(4, "subscribe failed");
    fail(8, "notification stream failed");
}

#[test]
fn desktop_ignores_a_failed_board_status_subscription() {
    let mut link = d_scanning(connect(None, false), "scanning for GPS beacon...");
    for event in [
        desktop::Event::Seen(vec![advert("AA:01", None, true)]),
        desktop::Event::Linked(false),
        desktop::Event::Done,
        desktop::Event::Done,
        desktop::Event::Offered(FULL),
        desktop::Event::Done,
    ] {
        d_step(&mut link, event);
    }
    assert_eq!(d_step(&mut link, desktop::Event::Done), ["subscribe Telemetry"]);
    assert_eq!(d_step(&mut link, desktop::Event::Failed("x".into())), ["subscribe Log"]);
}

#[test]
fn desktop_checks_a_quiet_link() {
    let (mut link, _) = d_connected(FULL);
    for _ in 0..2 {
        for _ in 0..7 {
            assert!(d_step(&mut link, desktop::Event::Quiet).is_empty());
        }
        // A notification does not put the check off.
        assert_eq!(d_step(&mut link, desktop::Event::Notify("aa01".into())), ["decode Position"]);
        assert_eq!(d_step(&mut link, desktop::Event::Quiet), ["check"]);
        assert!(d_step(&mut link, desktop::Event::Linked(true)).is_empty());
    }
    for _ in 0..7 {
        d_step(&mut link, desktop::Event::Quiet);
    }
    d_step(&mut link, desktop::Event::Quiet);
    assert_eq!(
        d_step(&mut link, desktop::Event::Linked(false))[3],
        "say connection lost; retrying"
    );
    let (mut link, _) = d_connected(FULL);
    assert_eq!(d_step(&mut link, desktop::Event::Ended)[3], "say connection lost; retrying");
}

#[test]
fn desktop_writes_and_disconnects() {
    let (mut link, _) = d_connected(FULL);
    link.wanted.take(BleCommand::Config(WRITE));
    assert_eq!(d_step(&mut link, desktop::Event::Poll), ["write Seconds { id: 7, secs: 300 }"]);
    assert_eq!(
        d_step(&mut link, desktop::Event::Failed("no".into())),
        ["say config write failed: no"]
    );
    assert!(d_step(&mut link, desktop::Event::Notify("zz".into())).is_empty());
    link.wanted.take(connect(Some("BB:02"), false));
    assert_eq!(
        d_step(&mut link, desktop::Event::Poll)[3],
        "say switching device; retrying"
    );
    let (mut link, _) = d_connected(FULL);
    link.wanted.take(BleCommand::Disconnect);
    assert_eq!(
        d_step(&mut link, desktop::Event::Poll),
        ["say disconnected", "hang up", "up false"]
    );
    assert_eq!(d_step(&mut link, desktop::Event::Poll), ["rest 200"]);
    link.wanted.close();
    assert_eq!(d_step(&mut link, desktop::Event::Poll), ["exit"]);
}

#[test]
fn desktop_sends_waiting_writes_on_connect() {
    let mut link = d_scanning(connect(None, false), "scanning for GPS beacon...");
    link.wanted.take(BleCommand::Config(ConfigWrite::Interval(9)));
    link.wanted.take(BleCommand::Config(WRITE));
    for event in [
        desktop::Event::Seen(vec![advert("AA:01", None, true)]),
        desktop::Event::Linked(false),
        desktop::Event::Done,
        desktop::Event::Done,
        desktop::Event::Offered(Offer { telemetry: false, log: false, settings: false, ..FULL }),
        desktop::Event::Done,
    ] {
        d_step(&mut link, event);
    }
    // Another device was pinned meanwhile.
    link.wanted.take(connect(Some("BB:02"), false));
    assert_eq!(d_step(&mut link, desktop::Event::Done), ["stream"]);
    assert_eq!(
        d_step(&mut link, desktop::Event::Done),
        [
            "up true",
            "say connected to AA:01",
            "write Interval(9)",
            "write Seconds { id: 7, secs: 300 }"
        ]
    );
    assert!(link.wanted.writes.is_empty());
    assert_eq!(d_step(&mut link, desktop::Event::Poll)[3], "say switching device; retrying");
}

#[test]
fn desktop_surveys_beacons_only() {
    let mut link = d_scanning(BleCommand::Scan, "scanning for GPS beacon...");
    assert_eq!(
        d_step(
            &mut link,
            desktop::Event::Seen(vec![
                advert("AA:01", None, true),
                advert("BB:02", Some("Beacon"), false),
                advert("CC:03", Some("Speaker"), false),
            ])
        ),
        ["found AA:01", "found BB:02", "rest 500"]
    );
    link.wanted.take(BleCommand::Disconnect);
    assert_eq!(d_step(&mut link, desktop::Event::Poll), ["stop"]);
}

#[test]
fn first_match_is_taken() {
    let seen = vec![
        advert("AA:01", Some("x"), false),
        advert("BB:02", Some("Beacon"), false),
        advert("CC:03", None, true),
    ];
    assert_eq!(find_match(&seen, &None, "Beacon"), Some(1));
    assert_eq!(find_match(&seen, &None, "beacon"), Some(2));
    assert_eq!(find_match(&seen, &Some("cc:03".into()), "Beacon"), Some(2));
    // A pin matches by address alone.
    assert_eq!(find_match(&seen, &Some("aa:01".into()), "Beacon"), Some(0));
    assert_eq!(find_match(&seen, &Some("dd".into()), "Beacon"), None);
}
