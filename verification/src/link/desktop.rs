//! The desktop transport. Its Bluetooth calls each come back with success or an
//! error text. A session is: scan (filtered by the GPS service, or pinned to a
//! MAC), connect, subscribe to the notifications, then pump notifications and
//! commands until something breaks, and start over.

use crate::ble::{ConfigWrite, DiscoveredDevice};
use crate::link::{channel_of, Channel, Mode, Uuids, Wanted, Wish};
use crate::link::android::{found, Found};
use crate::text::{
    alike, copy_opt, joined, joined3, opt_text, same, same_ignoring_case, same_opt,
};
use vstd::prelude::*;

verus! {

/// One device that the adapter knows of.
pub struct Advert {
    pub device: DiscoveredDevice,
    /// It advertises the GPS service.
    pub service: bool,
}

/// The characteristics that a connected device offers.
#[derive(Clone, Copy, PartialEq, Eq, Debug, Structural)]
pub struct Offer {
    pub position: bool,
    pub ack: bool,
    pub config: bool,
    pub telemetry: bool,
    pub log: bool,
    pub settings: bool,
}

/// What happened, as the transport learns of it.
pub enum Event {
    /// The command queue has been taken in; look at what is wanted now.
    Poll,
    /// There is a Bluetooth adapter, or there is none.
    Adapter(bool),
    /// The last call went through.
    Done,
    /// The last call failed, and why.
    Failed(String),
    /// The devices that the adapter knows of by now.
    Seen(Vec<Advert>),
    /// The device is connected, or it is not.
    Linked(bool),
    /// What the device offers.
    Offered(Offer),
    /// A characteristic, named by its address, has a new value.
    Notify(String),
    /// No notification came for a while.
    Quiet,
    /// The notifications have ended.
    Ended,
}

/// What to do next.
pub enum Action {
    /// Tell the UI about the state of the connection.
    Status(String),
    /// Tell the UI whether there is a connection.
    Connected(bool),
    /// Tell the UI about a board that answered.
    Discovered(DiscoveredDevice),
    /// Decode the new value of a characteristic and tell the UI.
    Decode(Channel),
    FindAdapter,
    StartScan,
    StopScan,
    /// List the devices that the adapter knows of.
    Look,
    /// Find out whether the device is connected.
    CheckLink,
    /// Connect to an address.
    Dial(String),
    DiscoverServices,
    /// Find out what the device offers.
    ListOffer,
    Subscribe(Channel),
    /// Start taking notifications.
    OpenStream,
    /// Read the settings; the value is handled as a notification.
    ReadSettings,
    Write(ConfigWrite),
    HangUp,
    /// Do nothing for this long, in milliseconds.
    Rest(u32),
    /// Leave: there is nobody left to work for.
    Exit,
}

/// What an [`Action`] says.
pub enum Act {
    Status(Seq<char>),
    Connected(bool),
    Discovered(Found),
    Decode(Channel),
    FindAdapter,
    StartScan,
    StopScan,
    Look,
    CheckLink,
    Dial(Seq<char>),
    DiscoverServices,
    ListOffer,
    Subscribe(Channel),
    OpenStream,
    ReadSettings,
    Write(ConfigWrite),
    HangUp,
    Rest(u32),
    Exit,
}

impl View for Action {
    type V = Act;

    open spec fn view(&self) -> Act {
        match self {
            Action::Status(text) => Act::Status(text@),
            Action::Connected(up) => Act::Connected(*up),
            Action::Discovered(device) => Act::Discovered(found(*device)),
            Action::Decode(channel) => Act::Decode(*channel),
            Action::FindAdapter => Act::FindAdapter,
            Action::StartScan => Act::StartScan,
            Action::StopScan => Act::StopScan,
            Action::Look => Act::Look,
            Action::CheckLink => Act::CheckLink,
            Action::Dial(address) => Act::Dial(address@),
            Action::DiscoverServices => Act::DiscoverServices,
            Action::ListOffer => Act::ListOffer,
            Action::Subscribe(channel) => Act::Subscribe(*channel),
            Action::OpenStream => Act::OpenStream,
            Action::ReadSettings => Act::ReadSettings,
            Action::Write(write) => Act::Write(*write),
            Action::HangUp => Act::HangUp,
            Action::Rest(ms) => Act::Rest(*ms),
            Action::Exit => Act::Exit,
        }
    }
}

/// What the actions of a list say.
pub open spec fn acts(list: Seq<Action>) -> Seq<Act> {
    list.map_values(|a: Action| a@)
}

/// How far the session has come.
pub enum Phase {
    Idle,
    AdapterCall,
    ScanCall { survey: bool },
    Scanning { survey: bool },
    /// A device was chosen; clear what an earlier session left of it.
    Clearing { address: String },
    DialCall { address: String },
    DiscoverCall { address: String },
    Listing { address: String },
    SubscribeCall { address: String, step: u8, offer: Offer },
    StreamCall { address: String, offer: Offer },
    /// Connected; so many quiet spells have passed since the link was checked.
    Pump { quiet: u32 },
    Checking,
}

/// What a [`Phase`] says.
pub enum Stage {
    Idle,
    AdapterCall,
    ScanCall { survey: bool },
    Scanning { survey: bool },
    Clearing { address: Seq<char> },
    DialCall { address: Seq<char> },
    DiscoverCall { address: Seq<char> },
    Listing { address: Seq<char> },
    SubscribeCall { address: Seq<char>, step: u8, offer: Offer },
    StreamCall { address: Seq<char>, offer: Offer },
    Pump { quiet: u32 },
    Checking,
}

impl View for Phase {
    type V = Stage;

    open spec fn view(&self) -> Stage {
        match self {
            Phase::Idle => Stage::Idle,
            Phase::AdapterCall => Stage::AdapterCall,
            Phase::ScanCall { survey } => Stage::ScanCall { survey: *survey },
            Phase::Scanning { survey } => Stage::Scanning { survey: *survey },
            Phase::Clearing { address } => Stage::Clearing { address: address@ },
            Phase::DialCall { address } => Stage::DialCall { address: address@ },
            Phase::DiscoverCall { address } => Stage::DiscoverCall { address: address@ },
            Phase::Listing { address } => Stage::Listing { address: address@ },
            Phase::SubscribeCall { address, step, offer } => Stage::SubscribeCall {
                address: address@,
                step: *step,
                offer: *offer,
            },
            Phase::StreamCall { address, offer } => Stage::StreamCall {
                address: address@,
                offer: *offer,
            },
            Phase::Pump { quiet } => Stage::Pump { quiet: *quiet },
            Phase::Checking => Stage::Checking,
        }
    }
}

/// The desktop transport.
pub struct DesktopLink {
    pub wanted: Wanted,
    pub phase: Phase,
    /// The device that was pinned when the session began.
    pub session_mac: Option<String>,
    pub uuids: Uuids,
    /// The name that every beacon advertises.
    pub beacon_name: String,
}

/// What a [`DesktopLink`] says.
pub struct State {
    pub wish: Wish,
    pub stage: Stage,
    pub session_mac: Option<Seq<char>>,
    pub uuids: Uuids,
    pub beacon_name: Seq<char>,
}

impl View for DesktopLink {
    type V = State;

    open spec fn view(&self) -> State {
        State {
            wish: self.wanted@,
            stage: self.phase@,
            session_mac: opt_text(self.session_mac),
            uuids: self.uuids,
            beacon_name: self.beacon_name@,
        }
    }
}

/// A device is a beacon: it advertises the service or the beacon name.
pub open spec fn is_beacon(advert: Advert, beacon_name: Seq<char>) -> bool {
    advert.service || opt_text(advert.device.name) == Some(beacon_name)
}

/// A device is the one to connect to: the pinned one (in any case), or, with
/// none pinned, any beacon.
pub open spec fn is_match(
    advert: Advert,
    mac: Option<Seq<char>>,
    beacon_name: Seq<char>,
) -> bool {
    match mac {
        Some(m) => alike(advert.device.address@, m),
        None => is_beacon(advert, beacon_name),
    }
}

/// The first device to connect to.
pub open spec fn first_match(
    seen: Seq<Advert>,
    mac: Option<Seq<char>>,
    beacon_name: Seq<char>,
) -> Option<int>
    decreases seen.len(),
{
    if seen.len() == 0 {
        None
    } else {
        match first_match(seen.drop_last(), mac, beacon_name) {
            Some(i) => Some(i),
            None => if is_match(seen.last(), mac, beacon_name) {
                Some(seen.len() - 1)
            } else {
                None
            },
        }
    }
}

/// The beacons among the devices, each to be reported.
pub open spec fn reported(seen: Seq<Advert>, beacon_name: Seq<char>) -> Seq<Act>
    decreases seen.len(),
{
    if seen.len() == 0 {
        Seq::empty()
    } else {
        let before = reported(seen.drop_last(), beacon_name);
        if is_beacon(seen.last(), beacon_name) {
            before.push(Act::Discovered(found(seen.last().device)))
        } else {
            before
        }
    }
}

/// Say that a session broke, rest, and start over.
pub open spec fn retried(s: State, why: Seq<char>) -> (State, Seq<Act>) {
    (
        State { stage: Stage::Idle, ..s },
        seq![Act::Connected(false), Act::Status(why + "; retrying"@), Act::Rest(2000)],
    )
}

/// A session that broke after a device was called. The link is not torn down
/// by itself on an error, and a lingering half-open device is exactly what
/// blocks the next connection, so it is always hung up. The loss is reported with
/// that, and again with what broke.
pub open spec fn broken(s: State, why: Seq<char>) -> (State, Seq<Act>) {
    (
        State { stage: Stage::Idle, ..s },
        seq![
            Act::HangUp,
            Act::Connected(false),
            Act::Connected(false),
            Act::Status(why + "; retrying"@),
            Act::Rest(2000),
        ],
    )
}

/// The next characteristic to subscribe to, from `step` on: position and ack,
/// which are required, then those of the board status that the device offers.
pub open spec fn next_channel(offer: Offer, step: u8) -> Option<(u8, Channel)> {
    if step == 0 {
        Some((0, Channel::Position))
    } else if step == 1 {
        Some((1, Channel::Ack))
    } else if step <= 2 && offer.telemetry {
        Some((2, Channel::Telemetry))
    } else if step <= 3 && offer.log {
        Some((3, Channel::Log))
    } else if step <= 4 && offer.settings {
        Some((4, Channel::Settings))
    } else {
        None
    }
}

/// The subscription after this one; there are five at most.
pub open spec fn step_after(step: u8) -> u8 {
    if step < 4 {
        (step + 1) as u8
    } else {
        5
    }
}

fn following(step: u8) -> (r: u8)
    ensures
        r == step_after(step),
{
    if step < 4 {
        step + 1
    } else {
        5
    }
}

/// Going on with the subscriptions from `step`, or to the notifications once
/// all are made.
pub open spec fn subscribing(s: State, address: Seq<char>, step: u8, offer: Offer) -> (
    State,
    Seq<Act>,
) {
    match next_channel(offer, step) {
        Some((at, channel)) => (
            State { stage: Stage::SubscribeCall { address, step: at, offer }, ..s },
            seq![Act::Subscribe(channel)],
        ),
        None => (State { stage: Stage::StreamCall { address, offer }, ..s }, seq![Act::OpenStream]),
    }
}

/// One action for each write, in order.
pub open spec fn written(writes: Seq<ConfigWrite>) -> Seq<Act> {
    writes.map_values(|w: ConfigWrite| Act::Write(w))
}

/// How a connection starts. The board's controls are populated from the board
/// itself, where it offers its settings.
pub open spec fn greeting(address: Seq<char>, settings: bool) -> Seq<Act> {
    let up = seq![Act::Connected(true), Act::Status("connected to "@ + address)];
    if settings {
        up.push(Act::ReadSettings)
    } else {
        up
    }
}

/// What becomes of the link, and what is done, on an event. The writes that
/// waited for a connection go out as it starts.
pub open spec fn next(s: State, event: Event) -> (State, Seq<Act>) {
    match (s.stage, event) {
        // Nothing under way: begin what is wanted.
        (Stage::Idle, Event::Poll) => if s.wish.mode == Mode::Closed {
            (s, seq![Act::Exit])
        } else if s.wish.mode == Mode::Idle {
            (s, seq![Act::Rest(200)])
        } else {
            (State { stage: Stage::AdapterCall, ..s }, seq![Act::FindAdapter])
        },
        (Stage::AdapterCall, Event::Adapter(there)) => if there {
            let survey = s.wish.mode == Mode::Survey;
            let status = if !survey && s.wish.chase && s.wish.mac is Some {
                "waiting for a wake window..."@
            } else {
                "scanning for GPS beacon..."@
            };
            (
                State { stage: Stage::ScanCall { survey }, session_mac: s.wish.mac, ..s },
                seq![Act::Status(status), Act::StartScan],
            )
        } else {
            (
                State { stage: Stage::Idle, ..s },
                seq![Act::Status("no Bluetooth adapter found"@), Act::Rest(3000)],
            )
        },
        // Scanning, for one board or for all of them.
        (Stage::ScanCall { survey }, Event::Done) => (
            State { stage: Stage::Scanning { survey }, ..s },
            seq![],
        ),
        (Stage::ScanCall { .. }, Event::Failed(why)) => retried(s, "scan failed: "@ + why@),
        (Stage::Scanning { survey }, Event::Poll) => {
            let goal = if survey {
                Mode::Survey
            } else {
                Mode::Connect
            };
            if s.wish.mode == goal {
                (s, seq![Act::Look])
            } else {
                (State { stage: Stage::Idle, ..s }, seq![Act::StopScan])
            }
        },
        (Stage::Scanning { survey }, Event::Seen(seen)) => if survey {
            (s, reported(seen@, s.beacon_name).push(Act::Rest(500)))
        } else {
            match first_match(seen@, s.wish.mac, s.beacon_name) {
                Some(i) => (
                    State { stage: Stage::Clearing { address: seen@[i].device.address@ }, ..s },
                    seq![Act::StopScan, Act::CheckLink],
                ),
                None => (s, seq![Act::Rest(500)]),
            }
        },
        // Connecting. A half-open connection left from a previous session is
        // cleared first: connecting to a device that is still believed to be
        // connected wedges.
        (Stage::Clearing { address }, Event::Linked(up)) => {
            let calls = seq![
                Act::Status("connecting to "@ + address + "..."@),
                Act::Dial(address),
            ];
            (
                State { stage: Stage::DialCall { address }, ..s },
                if up {
                    seq![Act::HangUp, Act::Rest(300)] + calls
                } else {
                    calls
                },
            )
        },
        (Stage::DialCall { address }, Event::Done) => (
            State { stage: Stage::DiscoverCall { address }, ..s },
            seq![Act::DiscoverServices],
        ),
        (Stage::DialCall { .. }, Event::Failed(why)) => broken(s, "connect failed: "@ + why@),
        (Stage::DiscoverCall { address }, Event::Done) => (
            State { stage: Stage::Listing { address }, ..s },
            seq![Act::ListOffer],
        ),
        (Stage::DiscoverCall { .. }, Event::Failed(why)) => broken(s, "discovery failed: "@ + why@),
        (Stage::Listing { address }, Event::Offered(offer)) => if !offer.position {
            broken(s, "position characteristic missing"@)
        } else if !offer.ack {
            broken(s, "ack characteristic missing"@)
        } else if !offer.config {
            broken(s, "config characteristic missing"@)
        } else {
            subscribing(s, address, 0, offer)
        },
        (Stage::SubscribeCall { address, step, offer }, Event::Done) => subscribing(
            s,
            address,
            step_after(step),
            offer,
        ),
        (Stage::SubscribeCall { address, step, offer }, Event::Failed(why)) => if step < 2 {
            broken(s, "subscribe failed: "@ + why@)
        } else {
            subscribing(s, address, step_after(step), offer)
        },
        (Stage::StreamCall { address, offer }, Event::Done) => (
            State {
                stage: Stage::Pump { quiet: 0 },
                wish: Wish { writes: Seq::empty(), ..s.wish },
                ..s
            },
            greeting(address, offer.settings) + written(s.wish.writes),
        ),
        (Stage::StreamCall { .. }, Event::Failed(why)) => broken(
            s,
            "notification stream failed: "@ + why@,
        ),
        // Connected: notifications out, commands in, until disconnect.
        (Stage::Pump { quiet }, Event::Poll) => if s.wish.mode != Mode::Connect {
            (
                State { stage: Stage::Idle, ..s },
                seq![Act::Status("disconnected"@), Act::HangUp, Act::Connected(false)],
            )
        } else if s.wish.mac != s.session_mac {
            // The UI pinned a different device (e.g. a config reload).
            broken(s, "switching device"@)
        } else {
            (
                State { wish: Wish { writes: Seq::empty(), ..s.wish }, ..s },
                written(s.wish.writes),
            )
        },
        (Stage::Pump { quiet }, Event::Failed(why)) => (
            s,
            seq![Act::Status("config write failed: "@ + why@)],
        ),
        (Stage::Pump { quiet }, Event::Notify(uuid)) => match channel_of(s.uuids, uuid@) {
            Some(channel) => (s, seq![Act::Decode(channel)]),
            None => (s, seq![]),
        },
        (Stage::Pump { .. }, Event::Ended) => broken(s, "connection lost"@),
        // Quiet: periodically confirm the link is still up (the notifications
        // do not always end on disconnect).
        (Stage::Pump { quiet }, Event::Quiet) => if quiet < 7 {
            (State { stage: Stage::Pump { quiet: (quiet + 1) as u32 }, ..s }, seq![])
        } else {
            (State { stage: Stage::Checking, ..s }, seq![Act::CheckLink])
        },
        (Stage::Checking, Event::Linked(up)) => if up {
            (State { stage: Stage::Pump { quiet: 0 }, ..s }, seq![])
        } else {
            broken(s, "connection lost"@)
        },
        // Nothing waits for this.
        _ => (s, seq![]),
    }
}

/// Find a discovered device matching the pinned MAC (case-insensitive) or, with
/// no MAC, one advertising the service or the beacon name.
pub fn find_match(seen: &Vec<Advert>, mac: &Option<String>, beacon_name: &str) -> (r: Option<
    usize,
>)
    ensures
        match r {
            Some(i) => i < seen@.len() && first_match(seen@, opt_text(*mac), beacon_name@) == Some(
                i as int,
            ),
            None => first_match(seen@, opt_text(*mac), beacon_name@) is None,
        },
{
    let ghost m = opt_text(*mac);
    let mut i: usize = 0;
    proof {
        assert(seen@.take(0) =~= Seq::empty());
    }
    while i < seen.len()
        invariant
            m == opt_text(*mac),
            i <= seen@.len(),
            first_match(seen@.take(i as int), m, beacon_name@) is None,
        decreases seen@.len() - i,
    {
        let hit = match mac {
            Some(mac) => same_ignoring_case(seen[i].device.address.as_str(), mac.as_str()),
            None => beacon(&seen[i], beacon_name),
        };
        proof {
            assert(seen@.take(i + 1).drop_last() =~= seen@.take(i as int));
            assert(seen@.take(i + 1).last() == seen@[i as int]);
        }
        if hit {
            proof {
                lemma_first_match_stays(seen@, m, beacon_name@, i + 1);
            }
            return Some(i);
        }
        i = i + 1;
    }
    assert(seen@.take(seen@.len() as int) =~= seen@);
    None
}

proof fn lemma_first_match_stays(
    seen: Seq<Advert>,
    mac: Option<Seq<char>>,
    beacon_name: Seq<char>,
    n: int,
)
    requires
        0 <= n <= seen.len(),
        first_match(seen.take(n), mac, beacon_name) is Some,
    ensures
        first_match(seen, mac, beacon_name) == first_match(seen.take(n), mac, beacon_name),
    decreases seen.len() - n,
{
    if n < seen.len() {
        assert(seen.take(n + 1).drop_last() =~= seen.take(n));
        lemma_first_match_stays(seen, mac, beacon_name, n + 1);
    } else {
        assert(seen.take(n) =~= seen);
    }
}

fn beacon(advert: &Advert, beacon_name: &str) -> (r: bool)
    ensures
        r == is_beacon(*advert, beacon_name@),
{
    advert.service || match &advert.device.name {
        Some(name) => same(name.as_str(), beacon_name),
        None => false,
    }
}

fn report_all(seen: &Vec<Advert>, beacon_name: &str) -> (r: Vec<Action>)
    ensures
        acts(r@) == reported(seen@, beacon_name@).push(Act::Rest(500)),
{
    let mut r: Vec<Action> = Vec::new();
    let mut i: usize = 0;
    proof {
        assert(seen@.take(0) =~= Seq::empty());
        assert(acts(r@) =~= Seq::empty());
    }
    while i < seen.len()
        invariant
            i <= seen@.len(),
            acts(r@) == reported(seen@.take(i as int), beacon_name@),
        decreases seen@.len() - i,
    {
        proof {
            assert(seen@.take(i + 1).drop_last() =~= seen@.take(i as int));
            assert(seen@.take(i + 1).last() == seen@[i as int]);
        }
        if beacon(&seen[i], beacon_name) {
            let ghost before = r@;
            let device = DiscoveredDevice {
                address: seen[i].device.address.clone(),
                name: copy_opt(&seen[i].device.name),
                rssi: seen[i].device.rssi,
            };
            let ghost one = found(device);
            r.push(Action::Discovered(device));
            assert(acts(r@) =~= acts(before).push(Act::Discovered(one)));
        }
        i = i + 1;
    }
    assert(seen@.take(seen@.len() as int) =~= seen@);
    let ghost before = r@;
    r.push(Action::Rest(500));
    assert(acts(r@) =~= acts(before).push(Act::Rest(500)));
    r
}

impl DesktopLink {
    /// A transport with nothing to do yet.
    pub fn new(uuids: Uuids, beacon_name: String) -> (r: Self)
        ensures
            r@.wish == (Wish { mode: Mode::Idle, mac: None, chase: false, writes: Seq::empty() }),
            r@.stage == Stage::Idle,
            r@.session_mac is None,
            r@.uuids == uuids,
            r@.beacon_name == beacon_name@,
    {
        DesktopLink {
            wanted: Wanted::new(),
            phase: Phase::Idle,
            session_mac: None,
            uuids,
            beacon_name,
        }
    }

    fn retry(&mut self, why: &str) -> (r: Vec<Action>)
        ensures
            (final(self)@, acts(r@)) == retried(old(self)@, why@),
    {
        self.phase = Phase::Idle;
        let r = vec![
            Action::Connected(false),
            Action::Status(joined(why, "; retrying")),
            Action::Rest(2000),
        ];
        assert(acts(r@) =~= retried(old(self)@, why@).1);
        r
    }

    fn break_off(&mut self, why: &str) -> (r: Vec<Action>)
        ensures
            (final(self)@, acts(r@)) == broken(old(self)@, why@),
    {
        self.phase = Phase::Idle;
        let r = vec![
            Action::HangUp,
            Action::Connected(false),
            Action::Connected(false),
            Action::Status(joined(why, "; retrying")),
            Action::Rest(2000),
        ];
        assert(acts(r@) =~= broken(old(self)@, why@).1);
        r
    }

    fn subscribe(&mut self, address: String, step: u8, offer: Offer) -> (r: Vec<Action>)
        ensures
            (final(self)@, acts(r@)) == subscribing(old(self)@, address@, step, offer),
    {
        let ghost a = address@;
        let next_one = if step == 0 {
            Some((0u8, Channel::Position))
        } else if step == 1 {
            Some((1u8, Channel::Ack))
        } else if step <= 2 && offer.telemetry {
            Some((2u8, Channel::Telemetry))
        } else if step <= 3 && offer.log {
            Some((3u8, Channel::Log))
        } else if step <= 4 && offer.settings {
            Some((4u8, Channel::Settings))
        } else {
            None
        };
        let r = match next_one {
            Some((at, channel)) => {
                self.phase = Phase::SubscribeCall { address, step: at, offer };
                vec![Action::Subscribe(channel)]
            },
            None => {
                self.phase = Phase::StreamCall { address, offer };
                vec![Action::OpenStream]
            },
        };
        assert(acts(r@) =~= subscribing(old(self)@, a, step, offer).1);
        r
    }

    fn send_writes(&mut self) -> (r: Vec<Action>)
        ensures
            final(self)@ == (State {
                wish: Wish { writes: Seq::empty(), ..old(self)@.wish },
                ..old(self)@
            }),
            acts(r@) == written(old(self)@.wish.writes),
    {
        let mut r: Vec<Action> = Vec::new();
        let mut i: usize = 0;
        while i < self.wanted.writes.len()
            invariant
                *self == *old(self),
                i <= self.wanted.writes@.len(),
                r@.len() == i,
                forall|j: int|
                    0 <= j < i ==> (#[trigger] r@[j])@ == Act::Write(self.wanted.writes@[j]),
            decreases self.wanted.writes@.len() - i,
        {
            r.push(Action::Write(self.wanted.writes[i]));
            i = i + 1;
        }
        self.wanted.writes = Vec::new();
        proof {
            assert(acts(r@) =~= written(old(self)@.wish.writes));
            assert(self.wanted.writes@ =~= Seq::empty());
        }
        r
    }

    fn greet(&mut self, address: &str, settings: bool) -> (r: Vec<Action>)
        ensures
            final(self)@ == (State {
                wish: Wish { writes: Seq::empty(), ..old(self)@.wish },
                ..old(self)@
            }),
            acts(r@) == greeting(address@, settings) + written(old(self)@.wish.writes),
    {
        let mut r = vec![
            Action::Connected(true),
            Action::Status(joined("connected to ", address)),
        ];
        if settings {
            r.push(Action::ReadSettings);
        }
        let ghost first = r@;
        let mut writes = self.send_writes();
        let ghost rest = writes@;
        r.append(&mut writes);
        assert(acts(first) =~= greeting(address@, settings));
        assert(acts(r@) =~= acts(first) + acts(rest));
        r
    }

    /// Takes in what happened, and tells what to do next.
    #[verifier::rlimit(60)]
    pub fn step(&mut self, event: Event) -> (r: Vec<Action>)
        ensures
            (final(self)@, acts(r@)) == next(old(self)@, event),
    {
        let ghost before = self@;
        let r = match (&self.phase, &event) {
            (Phase::Idle, Event::Poll) => if self.wanted.mode == Mode::Closed {
                vec![Action::Exit]
            } else if self.wanted.mode == Mode::Idle {
                vec![Action::Rest(200)]
            } else {
                self.phase = Phase::AdapterCall;
                vec![Action::FindAdapter]
            },
            (Phase::AdapterCall, Event::Adapter(there)) => if *there {
                let survey: bool = self.wanted.mode == Mode::Survey;
                let status = if !survey && self.wanted.chase && self.wanted.mac.is_some() {
                    "waiting for a wake window..."
                } else {
                    "scanning for GPS beacon..."
                };
                self.phase = Phase::ScanCall { survey };
                self.session_mac = copy_opt(&self.wanted.mac);
                vec![Action::Status(status.to_owned()), Action::StartScan]
            } else {
                self.phase = Phase::Idle;
                vec![
                    Action::Status("no Bluetooth adapter found".to_owned()),
                    Action::Rest(3000),
                ]
            },
            (Phase::ScanCall { survey }, Event::Done) => {
                self.phase = Phase::Scanning { survey: *survey };
                Vec::new()
            },
            (Phase::ScanCall { .. }, Event::Failed(why)) => {
                let message = joined("scan failed: ", why.as_str());
                self.retry(message.as_str())
            },
            (Phase::Scanning { survey }, Event::Poll) => {
                let goal = if *survey {
                    Mode::Survey
                } else {
                    Mode::Connect
                };
                if self.wanted.mode == goal {
                    vec![Action::Look]
                } else {
                    self.phase = Phase::Idle;
                    vec![Action::StopScan]
                }
            },
            (Phase::Scanning { survey }, Event::Seen(seen)) => if *survey {
                report_all(seen, self.beacon_name.as_str())
            } else {
                match find_match(seen, &self.wanted.mac, self.beacon_name.as_str()) {
                    Some(i) => {
                        self.phase = Phase::Clearing { address: seen[i].device.address.clone() };
                        vec![Action::StopScan, Action::CheckLink]
                    },
                    None => vec![Action::Rest(500)],
                }
            },
            (Phase::Clearing { address }, Event::Linked(up)) => {
                let address = address.clone();
                let status = joined3("connecting to ", address.as_str(), "...");
                self.phase = Phase::DialCall { address: address.clone() };
                if *up {
                    vec![
                        Action::HangUp,
                        Action::Rest(300),
                        Action::Status(status),
                        Action::Dial(address),
                    ]
                } else {
                    vec![Action::Status(status), Action::Dial(address)]
                }
            },
            (Phase::DialCall { address }, Event::Done) => {
                self.phase = Phase::DiscoverCall { address: address.clone() };
                vec![Action::DiscoverServices]
            },
            (Phase::DialCall { .. }, Event::Failed(why)) => {
                let message = joined("connect failed: ", why.as_str());
                self.break_off(message.as_str())
            },
            (Phase::DiscoverCall { address }, Event::Done) => {
                self.phase = Phase::Listing { address: address.clone() };
                vec![Action::ListOffer]
            },
            (Phase::DiscoverCall { .. }, Event::Failed(why)) => {
                let message = joined("discovery failed: ", why.as_str());
                self.break_off(message.as_str())
            },
            (Phase::Listing { address }, Event::Offered(offer)) => if !offer.position {
                self.break_off("position characteristic missing")
            } else if !offer.ack {
                self.break_off("ack characteristic missing")
            } else if !offer.config {
                self.break_off("config characteristic missing")
            } else {
                let address = address.clone();
                self.subscribe(address, 0, *offer)
            },
            (Phase::SubscribeCall { address, step, offer }, Event::Done) => {
                let (address, step, offer) = (address.clone(), *step, *offer);
                self.subscribe(address, following(step), offer)
            },
            (Phase::SubscribeCall { address, step, offer }, Event::Failed(why)) => {
                let (address, step, offer) = (address.clone(), *step, *offer);
                if step < 2 {
                    let message = joined("subscribe failed: ", why.as_str());
                    self.break_off(message.as_str())
                } else {
                    self.subscribe(address, following(step), offer)
                }
            },
            (Phase::StreamCall { address, offer }, Event::Done) => {
                let address = address.clone();
                let settings: bool = offer.settings;
                self.phase = Phase::Pump { quiet: 0 };
                self.greet(address.as_str(), settings)
            },
            (Phase::StreamCall { .. }, Event::Failed(why)) => {
                let message = joined("notification stream failed: ", why.as_str());
                self.break_off(message.as_str())
            },
            (Phase::Pump { .. }, Event::Poll) => if self.wanted.mode != Mode::Connect {
                self.phase = Phase::Idle;
                vec![
                    Action::Status("disconnected".to_owned()),
                    Action::HangUp,
                    Action::Connected(false),
                ]
            } else if !same_opt(&self.wanted.mac, &self.session_mac) {
                self.break_off("switching device")
            } else {
                self.send_writes()
            },
            (Phase::Pump { .. }, Event::Failed(why)) => vec![
                Action::Status(joined("config write failed: ", why.as_str())),
            ],
            (Phase::Pump { .. }, Event::Notify(uuid)) => match self.uuids.channel(uuid.as_str()) {
                Some(channel) => vec![Action::Decode(channel)],
                None => Vec::new(),
            },
            (Phase::Pump { .. }, Event::Ended) => self.break_off("connection lost"),
            (Phase::Pump { quiet }, Event::Quiet) => if *quiet < 7 {
                self.phase = Phase::Pump { quiet: *quiet + 1 };
                Vec::new()
            } else {
                self.phase = Phase::Checking;
                vec![Action::CheckLink]
            },
            (Phase::Checking, Event::Linked(up)) => if *up {
                self.phase = Phase::Pump { quiet: 0 };
                Vec::new()
            } else {
                self.break_off("connection lost")
            },
            _ => Vec::new(),
        };
        assert(acts(r@) =~= next(before, event).1);
        r
    }
}

/// What the UI believes about the connection after some actions, when it
/// believed `up` before.
pub open spec fn told(up: bool, done: Seq<Act>) -> bool
    decreases done.len(),
{
    if done.len() == 0 {
        up
    } else {
        match done.last() {
            Act::Connected(now) => now,
            _ => told(up, done.drop_last()),
        }
    }
}

/// A connection is up.
pub open spec fn is_up(stage: Stage) -> bool {
    stage is Pump || stage is Checking
}

proof fn lemma_told_nothing(up: bool, done: Seq<Act>)
    requires
        forall|i: int| 0 <= i < done.len() ==> !((#[trigger] done[i]) is Connected),
    ensures
        told(up, done) == up,
    decreases done.len(),
{
    if done.len() > 0 {
        assert(!(done[done.len() - 1] is Connected));
        assert forall|i: int| 0 <= i < done.drop_last().len() implies !((
        #[trigger] done.drop_last()[i]) is Connected) by {
            assert(done[i] == done.drop_last()[i]);
        }
        lemma_told_nothing(up, done.drop_last());
    }
}

proof fn lemma_writes_tell_nothing(up: bool, first: Seq<Act>, writes: Seq<ConfigWrite>)
    ensures
        told(up, first + written(writes)) == told(up, first),
    decreases writes.len(),
{
    let done = first + written(writes);
    if writes.len() > 0 {
        assert(done.last() == Act::Write(writes.last()));
        assert(done.drop_last() =~= first + written(writes.drop_last()));
        lemma_writes_tell_nothing(up, first, writes.drop_last());
    } else {
        assert(done =~= first);
    }
}

/// The UI always knows whether there is a connection: whatever happens, what it
/// was told last is that there is one exactly while notifications are pumped.
pub proof fn the_ui_knows_the_connection(s: State, event: Event, up: bool)
    requires
        up == is_up(s.stage),
    ensures
        told(up, next(s, event).1) == is_up(next(s, event).0.stage),
{
    reveal_with_fuel(told, 5);
    let (after, done) = next(s, event);
    match (s.stage, event) {
        (Stage::Scanning { survey }, Event::Seen(seen)) => {
            assert forall|i: int| 0 <= i < done.len() implies !((
            #[trigger] done[i]) is Connected) by {
                if survey && i < done.len() - 1 {
                    lemma_reports_call_nobody(seen@, s.beacon_name, i);
                }
            }
            lemma_told_nothing(up, done);
        },
        (Stage::Clearing { address }, Event::Linked(linked)) => {
            lemma_told_nothing(up, done);
        },
        (Stage::StreamCall { address, offer }, Event::Done) => {
            let first = greeting(address, offer.settings);
            if offer.settings {
                assert(first.drop_last().drop_last().last() == Act::Connected(true));
            } else {
                assert(first.drop_last().last() == Act::Connected(true));
            }
            lemma_writes_tell_nothing(up, first, s.wish.writes);
        },
        (Stage::Pump { quiet }, Event::Poll) => {
            if s.wish.mode == Mode::Connect && s.wish.mac == s.session_mac {
                lemma_told_nothing(up, done);
            } else if s.wish.mode != Mode::Connect {
                assert(done.last() == Act::Connected(false));
            } else {
                assert(done.drop_last().drop_last().last() == Act::Connected(false));
            }
        },
        _ => {
            if done == broken(s, "connection lost"@).1 {
                assert(done.drop_last().drop_last().last() == Act::Connected(false));
            } else if !is_up(s.stage) {
                if done.len() > 0 && done[0] != Act::Connected(false) && !(done.len() == 5
                    && done[1] == Act::Connected(false)) {
                    lemma_told_nothing(up, done);
                }
            }
        },
    }
}

/// A device is called only where it was the first that answered and matched:
/// the pinned one, where one is pinned, and a beacon otherwise. So a sleeping
/// board is never called before it was heard.
pub proof fn only_a_match_is_called(s: State, event: Event)
    ensures
        next(s, event).0.stage is Clearing ==> s.stage is Clearing || ({
            &&& s.stage == (Stage::Scanning { survey: false })
            &&& event matches Event::Seen(seen)
            &&& exists|i: int|
                0 <= i < seen@.len() && is_match(#[trigger] seen@[i], s.wish.mac, s.beacon_name)
                    && next(s, event).0.stage == (Stage::Clearing {
                    address: seen@[i].device.address@,
                })
        }),
        forall|i: int|
            0 <= i < next(s, event).1.len() && (#[trigger] next(s, event).1[i]) is Dial
                ==> s.stage == (Stage::Clearing { address: next(s, event).1[i]->Dial_0 }),
{
    if s.stage == (Stage::Scanning { survey: false }) && event is Seen {
        let seen = event->Seen_0;
        if first_match(seen@, s.wish.mac, s.beacon_name) is Some {
            lemma_first_match_matches(seen@, s.wish.mac, s.beacon_name);
            let i = first_match(seen@, s.wish.mac, s.beacon_name)->0;
            assert(is_match(seen@[i], s.wish.mac, s.beacon_name));
        }
    }
    assert forall|i: int|
        0 <= i < next(s, event).1.len() && (#[trigger] next(s, event).1[i]) is Dial implies s.stage
        == (Stage::Clearing { address: next(s, event).1[i]->Dial_0 }) by {
        match (s.stage, event) {
            (Stage::Scanning { survey }, Event::Seen(seen)) => {
                if survey && i < next(s, event).1.len() - 1 {
                    lemma_reports_call_nobody(seen@, s.beacon_name, i);
                }
            },
            _ => {},
        }
    }
}

proof fn lemma_first_match_matches(
    seen: Seq<Advert>,
    mac: Option<Seq<char>>,
    beacon_name: Seq<char>,
)
    requires
        first_match(seen, mac, beacon_name) is Some,
    ensures
        ({
            let i = first_match(seen, mac, beacon_name)->0;
            0 <= i < seen.len() && is_match(seen[i], mac, beacon_name)
        }),
    decreases seen.len(),
{
    if first_match(seen.drop_last(), mac, beacon_name) is Some {
        lemma_first_match_matches(seen.drop_last(), mac, beacon_name);
    }
}

proof fn lemma_reports_call_nobody(seen: Seq<Advert>, beacon_name: Seq<char>, i: int)
    requires
        0 <= i < reported(seen, beacon_name).len(),
    ensures
        reported(seen, beacon_name)[i] is Discovered,
    decreases seen.len(),
{
    if seen.len() > 0 {
        let before = reported(seen.drop_last(), beacon_name);
        if i < before.len() {
            lemma_reports_call_nobody(seen.drop_last(), beacon_name, i);
        }
    }
}

/// A setting is written only over a connection that is up: as it comes up, or
/// while it is to the device that is wanted. The queue is then sent whole, in
/// order, and once.
pub proof fn writes_go_over_a_connection(s: State, event: Event, i: int)
    requires
        0 <= i < next(s, event).1.len(),
        next(s, event).1[i] is Write,
    ensures
        next(s, event).0.stage is Pump,
        next(s, event).0.wish.writes.len() == 0,
        s.stage is Pump ==> {
            &&& s.wish.mode == Mode::Connect
            &&& s.wish.mac == s.session_mac
            &&& next(s, event).1 == written(s.wish.writes)
        },
        !(s.stage is Pump) ==> exists|address: Seq<char>, settings: bool|
            next(s, event).1 == #[trigger] greeting(address, settings) + written(s.wish.writes),
{
    match (s.stage, event) {
        (Stage::Scanning { survey }, Event::Seen(seen)) => {
            if survey && i < next(s, event).1.len() - 1 {
                lemma_reports_call_nobody(seen@, s.beacon_name, i);
            }
        },
        _ => {},
    }
}

/// A write that was asked for while there was no connection goes out right after
/// the next subscribe, whatever is wanted by then.
pub proof fn waiting_writes_go_out_on_connect(s: State, event: Event)
    requires
        !is_up(s.stage),
        is_up(next(s, event).0.stage),
    ensures
        next(s, event).0.wish == (Wish { writes: Seq::empty(), ..s.wish }),
        exists|address: Seq<char>, settings: bool|
            next(s, event).1 == #[trigger] greeting(address, settings) + written(s.wish.writes),
{
}

/// Nothing reconnects on its own: left alone, the transport stays off the air
/// until something is asked of it.
pub proof fn idle_stays_off_the_air(s: State, event: Event)
    requires
        s.stage is Idle,
        s.wish.mode == Mode::Idle,
    ensures
        next(s, event).0 == s,
        forall|i: int|
            0 <= i < next(s, event).1.len() ==> (#[trigger] next(s, event).1[i]) is Rest,
{
}

/// A device was called, so there may be a connection to hang up.
pub open spec fn has_called(stage: Stage) -> bool {
    match stage {
        Stage::Idle
        | Stage::AdapterCall
        | Stage::ScanCall { .. }
        | Stage::Scanning { .. }
        | Stage::Clearing { .. } => false,
        _ => true,
    }
}

/// A session that called a device never ends without hanging up, and telling the
/// UI so.
pub proof fn a_session_ends_with_hanging_up(s: State, event: Event)
    requires
        has_called(s.stage),
        !has_called(next(s, event).0.stage),
    ensures
        next(s, event).1.contains(Act::HangUp),
        next(s, event).1.contains(Act::Connected(false)),
{
    let done = next(s, event).1;
    if done[0] == Act::HangUp {
        assert(done[1] == Act::Connected(false));
    } else {
        assert(done[1] == Act::HangUp);
        assert(done[2] == Act::Connected(false));
    }
}

/// A connection is kept only while it is what is wanted: a Disconnect drops it,
/// and so does a scan, which then starts from a clean slate.
pub proof fn only_connect_keeps_the_link(s: State)
    requires
        s.stage is Pump,
        s.wish.mode != Mode::Connect,
    ensures
        next(s, Event::Poll).0.stage is Idle,
        next(s, Event::Poll).1.contains(Act::HangUp),
{
    assert(next(s, Event::Poll).1[1] == Act::HangUp);
}

/// The board status is optional: a subscription to it that fails never breaks a
/// session.
pub proof fn board_status_is_optional(s: State, event: Event)
    requires
        s.stage matches Stage::SubscribeCall { step, .. } && step >= 2,
    ensures
        has_called(next(s, event).0.stage),
{
}

} // verus!
