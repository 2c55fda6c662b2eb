//! The Android transport. The platform's Bluetooth calls either refuse at once
//! or answer later through a callback, and only one may be under way at a time,
//! so a session is a row of calls, each waited for.

use crate::ble::{ConfigWrite, DiscoveredDevice};
use crate::link::{channel_of, Channel, Mode, Uuids, Wanted, Wish};
use crate::text::{
    alike, copy_opt, joined, joined3, opt_text, same_ignoring_case, same_opt, signed_decimal,
    signed_text,
};
use vstd::prelude::*;

verus! {

/// What happened, as the transport learns of it.
pub enum Event {
    /// The command queue has been taken in; look at what is wanted now.
    Poll,
    /// The platform took the last call, or refused it.
    Done(bool),
    /// The wait for an answer ran out.
    Timeout,
    /// The callbacks have ended for good.
    Gone,
    /// A board answered the scan.
    Seen(DiscoveredDevice),
    /// The connection changed state: 2 is up, 0 is down.
    State(i32),
    /// The services are known, where the status is 0.
    Services(i32),
    /// A subscription was taken down, where the status is 0.
    Descriptor(i32),
    /// A characteristic, named by its address, has a new value.
    Notify(String),
    /// A write was answered; 0 means it was taken.
    Written(i32),
}

/// What to do next.
pub enum Action {
    /// Tell the UI about the state of the connection.
    Status(String),
    /// Tell the UI whether there is a connection.
    Connected(bool),
    /// Tell the UI about a board that answered.
    Discovered(DiscoveredDevice),
    /// Decode the new value of a characteristic and tell the UI.
    Decode(Channel),
    /// Drop callbacks left over from an earlier session.
    Flush,
    /// Make sure of the Bluetooth permissions, however long it takes.
    AskPermissions,
    StartScan,
    StopScan,
    /// Connect to an address.
    Dial(String),
    DiscoverServices,
    Subscribe(Channel),
    /// Read the settings; the value comes back as a notification.
    ReadSettings,
    Write(ConfigWrite),
    HangUp,
    /// Wait this long, in milliseconds, for the answer to the last call.
    Await(u32),
    /// Do nothing for this long, in milliseconds.
    Rest(u32),
    /// Leave: there is nobody left to work for.
    Exit,
}

/// A board that answered, as what its texts say.
pub struct Found {
    pub address: Seq<char>,
    pub name: Option<Seq<char>>,
    pub rssi: Option<i16>,
}

/// What a [`DiscoveredDevice`] says.
pub open spec fn found(device: DiscoveredDevice) -> Found {
    Found { address: device.address@, name: opt_text(device.name), rssi: device.rssi }
}

/// What an [`Action`] says.
pub enum Act {
    Status(Seq<char>),
    Connected(bool),
    Discovered(Found),
    Decode(Channel),
    Flush,
    AskPermissions,
    StartScan,
    StopScan,
    Dial(Seq<char>),
    DiscoverServices,
    Subscribe(Channel),
    ReadSettings,
    Write(ConfigWrite),
    HangUp,
    Await(u32),
    Rest(u32),
    Exit,
}

impl View for Action {
    type V = Act;

    open spec fn view(&self) -> Act {
        match self {
            Action::Status(text) => Act::Status(text@),
            Action::Connected(up) => Act::Connected(*up),
            Action::Discovered(device) => Act::Discovered(found(*device)),
            Action::Decode(channel) => Act::Decode(*channel),
            Action::Flush => Act::Flush,
            Action::AskPermissions => Act::AskPermissions,
            Action::StartScan => Act::StartScan,
            Action::StopScan => Act::StopScan,
            Action::Dial(address) => Act::Dial(address@),
            Action::DiscoverServices => Act::DiscoverServices,
            Action::Subscribe(channel) => Act::Subscribe(*channel),
            Action::ReadSettings => Act::ReadSettings,
            Action::Write(write) => Act::Write(*write),
            Action::HangUp => Act::HangUp,
            Action::Await(ms) => Act::Await(*ms),
            Action::Rest(ms) => Act::Rest(*ms),
            Action::Exit => Act::Exit,
        }
    }
}

/// What the actions of a list say.
pub open spec fn acts(list: Seq<Action>) -> Seq<Act> {
    list.map_values(|a: Action| a@)
}

/// How far the session has come. A `..Call` phase waits for the platform to
/// take the call, the phase after it for the answer.
pub enum Phase {
    Idle,
    Asking,
    ScanCall { survey: bool },
    Scanning { survey: bool },
    DialCall { address: String },
    Connecting { address: String },
    DiscoverCall { address: String },
    Discovering { address: String },
    SubscribeCall { address: String, step: u8 },
    Subscribing { address: String, step: u8 },
    Pump,
}

/// What a [`Phase`] says.
pub enum Stage {
    Idle,
    Asking,
    ScanCall { survey: bool },
    Scanning { survey: bool },
    DialCall { address: Seq<char> },
    Connecting { address: Seq<char> },
    DiscoverCall { address: Seq<char> },
    Discovering { address: Seq<char> },
    SubscribeCall { address: Seq<char>, step: u8 },
    Subscribing { address: Seq<char>, step: u8 },
    Pump,
}

impl View for Phase {
    type V = Stage;

    open spec fn view(&self) -> Stage {
        match self {
            Phase::Idle => Stage::Idle,
            Phase::Asking => Stage::Asking,
            Phase::ScanCall { survey } => Stage::ScanCall { survey: *survey },
            Phase::Scanning { survey } => Stage::Scanning { survey: *survey },
            Phase::DialCall { address } => Stage::DialCall { address: address@ },
            Phase::Connecting { address } => Stage::Connecting { address: address@ },
            Phase::DiscoverCall { address } => Stage::DiscoverCall { address: address@ },
            Phase::Discovering { address } => Stage::Discovering { address: address@ },
            Phase::SubscribeCall { address, step } => Stage::SubscribeCall {
                address: address@,
                step: *step,
            },
            Phase::Subscribing { address, step } => Stage::Subscribing {
                address: address@,
                step: *step,
            },
            Phase::Pump => Stage::Pump,
        }
    }
}

/// The Android transport.
pub struct AndroidLink {
    pub wanted: Wanted,
    pub phase: Phase,
    /// The device that was pinned when the session began.
    pub session_mac: Option<String>,
    /// The Bluetooth permissions are there.
    pub permitted: bool,
    pub uuids: Uuids,
}

/// What an [`AndroidLink`] says.
pub struct State {
    pub wish: Wish,
    pub stage: Stage,
    pub session_mac: Option<Seq<char>>,
    pub permitted: bool,
    pub uuids: Uuids,
}

impl View for AndroidLink {
    type V = State;

    open spec fn view(&self) -> State {
        State {
            wish: self.wanted@,
            stage: self.phase@,
            session_mac: opt_text(self.session_mac),
            permitted: self.permitted,
            uuids: self.uuids,
        }
    }
}

/// The characteristics to subscribe to, in order. The first two are required;
/// the rest are the board status of the esp32c6-gps, absent on the c3 beacon,
/// so a missing one is not an error. Settings is subscribed before it is read,
/// so a change the board makes between the two (a clamped interval, say) still
/// gets through.
pub open spec fn channel_at(step: u8) -> Channel {
    if step == 0 {
        Channel::Position
    } else if step == 1 {
        Channel::Ack
    } else if step == 2 {
        Channel::Telemetry
    } else if step == 3 {
        Channel::Log
    } else {
        Channel::Settings
    }
}

/// A session that broke: hang up, say so, rest, and start over.
pub open spec fn failed(s: State, why: Seq<char>) -> (State, Seq<Act>) {
    (
        State { stage: Stage::Idle, ..s },
        seq![
            Act::HangUp,
            Act::Connected(false),
            Act::Status(why + "; retrying"@),
            Act::Rest(2000),
        ],
    )
}

/// A session whose device is no longer the wanted one: it is left as one that is
/// to stop, and then as one that broke.
pub open spec fn switched(s: State) -> (State, Seq<Act>) {
    let (after, done) = failed(s, "switching device"@);
    (after, seq![Act::HangUp, Act::Connected(false)] + done)
}

/// Connecting to an address.
pub open spec fn dialing(s: State, first: Act, address: Seq<char>) -> (State, Seq<Act>) {
    (
        State { stage: Stage::DialCall { address }, ..s },
        seq![first, Act::Status("connecting to "@ + address + "..."@), Act::Dial(address)],
    )
}

/// A new session. A pinned device is normally called straight off, which is
/// cheaper than scanning. That is the wrong primitive for a board that may be
/// asleep: a call is a bounded attempt, and retrying it on a fixed cycle can
/// stay out of phase with a short advertising window for a long time. Chasing
/// therefore scans instead - always listening, so any window is caught the
/// moment it opens.
pub open spec fn begun(s: State) -> (State, Seq<Act>) {
    let s = State { session_mac: s.wish.mac, ..s };
    let survey = s.wish.mode == Mode::Survey;
    if !survey && s.wish.mac is Some && !s.wish.chase {
        dialing(s, Act::Flush, s.wish.mac->0)
    } else {
        let status = if !survey && s.wish.mac is Some {
            "waiting for a wake window..."@
        } else {
            "scanning for GPS beacon..."@
        };
        (
            State { stage: Stage::ScanCall { survey }, ..s },
            seq![Act::Flush, Act::Status(status), Act::StartScan],
        )
    }
}

/// One action for each write, in order.
pub open spec fn written(writes: Seq<ConfigWrite>) -> Seq<Act> {
    writes.map_values(|w: ConfigWrite| Act::Write(w))
}

/// How a connection starts. The board's controls are populated from the board
/// itself rather than from assumed defaults for settings it holds in flash
/// across power cycles.
pub open spec fn greeting(address: Seq<char>) -> Seq<Act> {
    seq![Act::Connected(true), Act::Status("connected to "@ + address), Act::ReadSettings]
}

/// The next subscription, or the connection's start once all are made, at which
/// the writes that waited for it go out.
pub open spec fn subscribed(s: State, address: Seq<char>, step: u8) -> (State, Seq<Act>) {
    if step < 4 {
        let next_step = (step + 1) as u8;
        (
            State { stage: Stage::SubscribeCall { address, step: next_step }, ..s },
            seq![Act::Subscribe(channel_at(next_step))],
        )
    } else {
        (
            State { stage: Stage::Pump, wish: Wish { writes: Seq::empty(), ..s.wish }, ..s },
            greeting(address) + written(s.wish.writes),
        )
    }
}

/// What becomes of the link, and what is done, on an event.
pub open spec fn next(s: State, event: Event) -> (State, Seq<Act>) {
    match (s.stage, event) {
        // Nothing under way: begin what is wanted.
        (Stage::Idle, Event::Poll) => if s.wish.mode == Mode::Closed {
            (s, seq![Act::Exit])
        } else if s.wish.mode == Mode::Idle {
            (s, seq![Act::Rest(200)])
        } else if !s.permitted {
            (
                State { stage: Stage::Asking, ..s },
                seq![Act::Status("waiting for Bluetooth permissions..."@), Act::AskPermissions],
            )
        } else {
            begun(s)
        },
        (Stage::Asking, Event::Done(granted)) => if granted {
            (State { stage: Stage::Idle, permitted: true, ..s }, seq![])
        } else {
            (State { stage: Stage::Idle, ..s }, seq![Act::Exit])
        },
        // Scanning, for one board or for all of them.
        (Stage::ScanCall { survey }, Event::Done(taken)) => if taken {
            (State { stage: Stage::Scanning { survey }, ..s }, seq![])
        } else {
            failed(s, "scan failed (Bluetooth off?)"@)
        },
        (Stage::Scanning { survey }, Event::Poll) => {
            let goal = if survey {
                Mode::Survey
            } else {
                Mode::Connect
            };
            if s.wish.mode == goal {
                (s, seq![])
            } else {
                (State { stage: Stage::Idle, ..s }, seq![Act::StopScan])
            }
        },
        (Stage::Scanning { survey }, Event::Seen(device)) => if survey {
            (s, seq![Act::Discovered(found(device))])
        } else if s.session_mac is Some && !alike(device.address@, s.session_mac->0) {
            // Another GPS board answering the same service filter.
            (s, seq![])
        } else {
            dialing(s, Act::StopScan, device.address@)
        },
        (Stage::Scanning { survey }, Event::Gone) => failed(s, "worker gone"@),
        // Connecting, finding the services, subscribing.
        (Stage::DialCall { address }, Event::Done(taken)) => if taken {
            (State { stage: Stage::Connecting { address }, ..s }, seq![Act::Await(20000)])
        } else {
            failed(s, "connect call failed"@)
        },
        (Stage::Connecting { address }, Event::State(state)) => if state == 2 {
            (State { stage: Stage::DiscoverCall { address }, ..s }, seq![Act::DiscoverServices])
        } else {
            (s, seq![])
        },
        (Stage::Connecting { .. }, Event::Timeout) => failed(s, "connect timed out"@),
        (Stage::Connecting { .. }, Event::Gone) => failed(s, "connect timed out"@),
        (Stage::DiscoverCall { address }, Event::Done(taken)) => if taken {
            (State { stage: Stage::Discovering { address }, ..s }, seq![Act::Await(10000)])
        } else {
            failed(s, "service discovery call failed"@)
        },
        (Stage::Discovering { address }, Event::Services(status)) => if status == 0 {
            (
                State { stage: Stage::SubscribeCall { address, step: 0 }, ..s },
                seq![Act::Subscribe(Channel::Position)],
            )
        } else {
            (s, seq![])
        },
        (Stage::Discovering { .. }, Event::Timeout) => failed(s, "service discovery timed out"@),
        (Stage::Discovering { .. }, Event::Gone) => failed(s, "service discovery timed out"@),
        (Stage::SubscribeCall { address, step }, Event::Done(taken)) => if taken {
            (State { stage: Stage::Subscribing { address, step }, ..s }, seq![Act::Await(5000)])
        } else if step < 2 {
            failed(s, "subscribe call failed"@)
        } else {
            subscribed(s, address, step)
        },
        (Stage::Subscribing { address, step }, Event::Descriptor(status)) => if status == 0 {
            subscribed(s, address, step)
        } else {
            (s, seq![])
        },
        (Stage::Subscribing { address, step }, Event::Timeout) => if step < 2 {
            failed(s, "subscribe timed out"@)
        } else {
            subscribed(s, address, step)
        },
        (Stage::Subscribing { address, step }, Event::Gone) => if step < 2 {
            failed(s, "subscribe timed out"@)
        } else {
            subscribed(s, address, step)
        },
        // Connected: notifications out, commands in, until disconnect.
        (Stage::Pump, Event::Poll) => if s.wish.mode != Mode::Connect {
            (
                State { stage: Stage::Idle, ..s },
                seq![Act::HangUp, Act::Connected(false), Act::Status("disconnected"@)],
            )
        } else if s.wish.mac != s.session_mac {
            // The UI pinned a different device (e.g. a config reload).
            switched(s)
        } else {
            (
                State { wish: Wish { writes: Seq::empty(), ..s.wish }, ..s },
                written(s.wish.writes),
            )
        },
        (Stage::Pump, Event::Done(taken)) => if taken {
            (s, seq![])
        } else {
            (s, seq![Act::Status("config write failed"@)])
        },
        (Stage::Pump, Event::Notify(uuid)) => match channel_of(s.uuids, uuid@) {
            Some(channel) => (s, seq![Act::Decode(channel)]),
            None => (s, seq![]),
        },
        (Stage::Pump, Event::State(state)) => if state == 0 {
            failed(s, "connection lost"@)
        } else {
            (s, seq![])
        },
        (Stage::Pump, Event::Written(status)) => if status != 0 {
            (
                s,
                seq![
                    Act::Status(
                        "config write rejected (status "@ + signed_decimal(status as int) + ")"@,
                    ),
                ],
            )
        } else {
            (s, seq![])
        },
        (Stage::Pump, Event::Gone) => failed(s, "worker gone"@),
        // A callback that nothing waits for.
        _ => (s, seq![]),
    }
}

impl AndroidLink {
    /// A transport with nothing to do yet.
    pub fn new(uuids: Uuids) -> (r: Self)
        ensures
            r@.wish == (Wish { mode: Mode::Idle, mac: None, chase: false, writes: Seq::empty() }),
            r@.stage == Stage::Idle,
            r@.session_mac is None,
            !r@.permitted,
            r@.uuids == uuids,
    {
        AndroidLink {
            wanted: Wanted::new(),
            phase: Phase::Idle,
            session_mac: None,
            permitted: false,
            uuids,
        }
    }

    fn fail(&mut self, why: &str) -> (r: Vec<Action>)
        ensures
            (final(self)@, acts(r@)) == failed(old(self)@, why@),
    {
        self.phase = Phase::Idle;
        let r = vec![
            Action::HangUp,
            Action::Connected(false),
            Action::Status(joined(why, "; retrying")),
            Action::Rest(2000),
        ];
        assert(acts(r@) =~= failed(old(self)@, why@).1);
        r
    }

    fn switch(&mut self) -> (r: Vec<Action>)
        ensures
            (final(self)@, acts(r@)) == switched(old(self)@),
    {
        let mut r = vec![Action::HangUp, Action::Connected(false)];
        let ghost first = r@;
        let mut rest = self.fail("switching device");
        let ghost done = rest@;
        r.append(&mut rest);
        assert(acts(first) =~= seq![Act::HangUp, Act::Connected(false)]);
        assert(acts(r@) =~= acts(first) + acts(done));
        r
    }

    fn dial(&mut self, first: Action, address: String) -> (r: Vec<Action>)
        ensures
            (final(self)@, acts(r@)) == dialing(old(self)@, first@, address@),
    {
        let status = joined3("connecting to ", address.as_str(), "...");
        self.phase = Phase::DialCall { address: address.clone() };
        let ghost (f, a) = (first@, address@);
        let r = vec![first, Action::Status(status), Action::Dial(address)];
        assert(acts(r@) =~= dialing(old(self)@, f, a).1);
        r
    }

    fn begin(&mut self) -> (r: Vec<Action>)
        ensures
            (final(self)@, acts(r@)) == begun(old(self)@),
    {
        self.session_mac = copy_opt(&self.wanted.mac);
        let survey: bool = self.wanted.mode == Mode::Survey;
        let pinned = copy_opt(&self.wanted.mac);
        match pinned {
            Some(mac) => {
                if !survey && !self.wanted.chase {
                    return self.dial(Action::Flush, mac);
                }
            },
            None => {},
        }
        let status = if !survey && self.wanted.mac.is_some() {
            "waiting for a wake window..."
        } else {
            "scanning for GPS beacon..."
        };
        self.phase = Phase::ScanCall { survey };
        let r = vec![Action::Flush, Action::Status(status.to_owned()), Action::StartScan];
        assert(acts(r@) =~= begun(old(self)@).1);
        r
    }

    fn subscribe_next(&mut self, address: String, step: u8) -> (r: Vec<Action>)
        ensures
            (final(self)@, acts(r@)) == subscribed(old(self)@, address@, step),
    {
        if step < 4 {
            let next_step: u8 = step + 1;
            let channel = if next_step == 1 {
                Channel::Ack
            } else if next_step == 2 {
                Channel::Telemetry
            } else if next_step == 3 {
                Channel::Log
            } else {
                Channel::Settings
            };
            let ghost a = address@;
            self.phase = Phase::SubscribeCall { address, step: next_step };
            let r = vec![Action::Subscribe(channel)];
            assert(acts(r@) =~= subscribed(old(self)@, a, step).1);
            r
        } else {
            self.phase = Phase::Pump;
            let mut r = vec![
                Action::Connected(true),
                Action::Status(joined("connected to ", address.as_str())),
                Action::ReadSettings,
            ];
            assert(acts(r@) =~= greeting(address@));
            let ghost first = r@;
            let mut writes = self.send_writes();
            let ghost rest = writes@;
            r.append(&mut writes);
            assert(acts(r@) =~= acts(first) + acts(rest));
            r
        }
    }

    fn send_writes(&mut self) -> (r: Vec<Action>)
        ensures
            final(self)@ == (State {
                wish: Wish { writes: Seq::empty(), ..old(self)@.wish },
                ..old(self)@
            }),
            acts(r@) == written(old(self)@.wish.writes),
    {
        let mut r: Vec<Action> = Vec::new();
        let mut i: usize = 0;
        while i < self.wanted.writes.len()
            invariant
                *self == *old(self),
                i <= self.wanted.writes@.len(),
                r@.len() == i,
                forall|j: int|
                    0 <= j < i ==> (#[trigger] r@[j])@ == Act::Write(self.wanted.writes@[j]),
            decreases self.wanted.writes@.len() - i,
        {
            r.push(Action::Write(self.wanted.writes[i]));
            i = i + 1;
        }
        self.wanted.writes = Vec::new();
        proof {
            assert(acts(r@) =~= written(old(self)@.wish.writes));
            assert(self.wanted.writes@ =~= Seq::empty());
        }
        r
    }

    /// Takes in what happened, and tells what to do next.
    #[verifier::rlimit(60)]
    pub fn step(&mut self, event: Event) -> (r: Vec<Action>)
        ensures
            (final(self)@, acts(r@)) == next(old(self)@, event),
    {
        let ghost before = self@;
        let r = match (&self.phase, &event) {
            (Phase::Idle, Event::Poll) => if self.wanted.mode == Mode::Closed {
                vec![Action::Exit]
            } else if self.wanted.mode == Mode::Idle {
                vec![Action::Rest(200)]
            } else if !self.permitted {
                self.phase = Phase::Asking;
                vec![
                    Action::Status("waiting for Bluetooth permissions...".to_owned()),
                    Action::AskPermissions,
                ]
            } else {
                self.begin()
            },
            (Phase::Asking, Event::Done(granted)) => if *granted {
                self.permitted = true;
                self.phase = Phase::Idle;
                Vec::new()
            } else {
                self.phase = Phase::Idle;
                vec![Action::Exit]
            },
            (Phase::ScanCall { survey }, Event::Done(taken)) => if *taken {
                self.phase = Phase::Scanning { survey: *survey };
                Vec::new()
            } else {
                self.fail("scan failed (Bluetooth off?)")
            },
            (Phase::Scanning { survey }, Event::Poll) => {
                let goal = if *survey {
                    Mode::Survey
                } else {
                    Mode::Connect
                };
                if self.wanted.mode == goal {
                    Vec::new()
                } else {
                    self.phase = Phase::Idle;
                    vec![Action::StopScan]
                }
            },
            (Phase::Scanning { survey }, Event::Seen(device)) => if *survey {
                vec![
                    Action::Discovered(
                        DiscoveredDevice {
                            address: device.address.clone(),
                            name: copy_opt(&device.name),
                            rssi: device.rssi,
                        },
                    ),
                ]
            } else {
                let other = match &self.session_mac {
                    Some(mac) => !same_ignoring_case(device.address.as_str(), mac.as_str()),
                    None => false,
                };
                if other {
                    Vec::new()
                } else {
                    self.dial(Action::StopScan, device.address.clone())
                }
            },
            (Phase::Scanning { .. }, Event::Gone) => self.fail("worker gone"),
            (Phase::DialCall { address }, Event::Done(taken)) => if *taken {
                self.phase = Phase::Connecting { address: address.clone() };
                vec![Action::Await(20000)]
            } else {
                self.fail("connect call failed")
            },
            (Phase::Connecting { address }, Event::State(state)) => if *state == 2 {
                self.phase = Phase::DiscoverCall { address: address.clone() };
                vec![Action::DiscoverServices]
            } else {
                Vec::new()
            },
            (Phase::Connecting { .. }, Event::Timeout) => self.fail("connect timed out"),
            (Phase::Connecting { .. }, Event::Gone) => self.fail("connect timed out"),
            (Phase::DiscoverCall { address }, Event::Done(taken)) => if *taken {
                self.phase = Phase::Discovering { address: address.clone() };
                vec![Action::Await(10000)]
            } else {
                self.fail("service discovery call failed")
            },
            (Phase::Discovering { address }, Event::Services(status)) => if *status == 0 {
                self.phase = Phase::SubscribeCall { address: address.clone(), step: 0 };
                vec![Action::Subscribe(Channel::Position)]
            } else {
                Vec::new()
            },
            (Phase::Discovering { .. }, Event::Timeout) => self.fail("service discovery timed out"),
            (Phase::Discovering { .. }, Event::Gone) => self.fail("service discovery timed out"),
            (Phase::SubscribeCall { address, step }, Event::Done(taken)) => {
                let (address, step) = (address.clone(), *step);
                if *taken {
                    self.phase = Phase::Subscribing { address, step };
                    vec![Action::Await(5000)]
                } else if step < 2 {
                    self.fail("subscribe call failed")
                } else {
                    self.subscribe_next(address, step)
                }
            },
            (Phase::Subscribing { address, step }, Event::Descriptor(status)) => if *status == 0 {
                let (address, step) = (address.clone(), *step);
                self.subscribe_next(address, step)
            } else {
                Vec::new()
            },
            (Phase::Subscribing { address, step }, Event::Timeout) => if *step < 2 {
                self.fail("subscribe timed out")
            } else {
                let (address, step) = (address.clone(), *step);
                self.subscribe_next(address, step)
            },
            (Phase::Subscribing { address, step }, Event::Gone) => if *step < 2 {
                self.fail("subscribe timed out")
            } else {
                let (address, step) = (address.clone(), *step);
                self.subscribe_next(address, step)
            },
            (Phase::Pump, Event::Poll) => if self.wanted.mode != Mode::Connect {
                self.phase = Phase::Idle;
                vec![
                    Action::HangUp,
                    Action::Connected(false),
                    Action::Status("disconnected".to_owned()),
                ]
            } else if !same_opt(&self.wanted.mac, &self.session_mac) {
                self.switch()
            } else {
                self.send_writes()
            },
            (Phase::Pump, Event::Done(taken)) => if *taken {
                Vec::new()
            } else {
                vec![Action::Status("config write failed".to_owned())]
            },
            (Phase::Pump, Event::Notify(uuid)) => match self.uuids.channel(uuid.as_str()) {
                Some(channel) => vec![Action::Decode(channel)],
                None => Vec::new(),
            },
            (Phase::Pump, Event::State(state)) => if *state == 0 {
                self.fail("connection lost")
            } else {
                Vec::new()
            },
            (Phase::Pump, Event::Written(status)) => if *status != 0 {
                let shown = signed_text(*status as i64);
                vec![
                    Action::Status(
                        joined3("config write rejected (status ", shown.as_str(), ")"),
                    ),
                ]
            } else {
                Vec::new()
            },
            (Phase::Pump, Event::Gone) => self.fail("worker gone"),
            _ => Vec::new(),
        };
        assert(acts(r@) =~= next(before, event).1);
        r
    }
}

/// What the UI believes about the connection after some actions, when it
/// believed `up` before.
pub open spec fn told(up: bool, done: Seq<Act>) -> bool
    decreases done.len(),
{
    if done.len() == 0 {
        up
    } else {
        match done.last() {
            Act::Connected(now) => now,
            _ => told(up, done.drop_last()),
        }
    }
}

proof fn lemma_writes_tell_nothing(up: bool, first: Seq<Act>, writes: Seq<ConfigWrite>)
    ensures
        told(up, first + written(writes)) == told(up, first),
    decreases writes.len(),
{
    let done = first + written(writes);
    if writes.len() > 0 {
        assert(done.last() == Act::Write(writes.last()));
        assert(done.drop_last() =~= first + written(writes.drop_last()));
        lemma_writes_tell_nothing(up, first, writes.drop_last());
    } else {
        assert(done =~= first);
    }
}

proof fn lemma_greeting_tells(s: State, address: Seq<char>, step: u8, up: bool)
    ensures
        step >= 4 ==> told(up, subscribed(s, address, step).1),
        step < 4 ==> told(up, subscribed(s, address, step).1) == up,
{
    reveal_with_fuel(told, 4);
    lemma_writes_tell_nothing(up, greeting(address), s.wish.writes);
    let first = greeting(address);
    assert(first.drop_last().drop_last().last() == Act::Connected(true));
    let done = subscribed(s, address, step).1;
    if step < 4 {
        assert(done.drop_last().len() == 0);
    }
}

/// The UI always knows whether there is a connection: whatever happens, what it
/// was told last is that there is one exactly while notifications are pumped.
pub proof fn the_ui_knows_the_connection(s: State, event: Event, up: bool)
    requires
        up == (s.stage is Pump),
    ensures
        told(up, next(s, event).1) == (next(s, event).0.stage is Pump),
{
    reveal_with_fuel(told, 5);
    let (after, done) = next(s, event);
    match (s.stage, event) {
        (Stage::Pump, Event::Poll) => {
            if s.wish.mode == Mode::Connect && s.wish.mac == s.session_mac {
                assert(Seq::<Act>::empty() + done =~= done);
                lemma_writes_tell_nothing(up, Seq::empty(), s.wish.writes);
            } else if s.wish.mode != Mode::Connect {
                assert(done.drop_last().drop_last() =~= seq![Act::HangUp]);
                assert(done.drop_last().last() == Act::Connected(false));
            } else {
                let rest = failed(s, "switching device"@).1;
                assert(done =~= seq![Act::HangUp, Act::Connected(false)] + rest);
                assert(done.last() is Rest);
                assert(done.drop_last().last() is Status);
                assert(done.drop_last().drop_last().last() == Act::Connected(false));
            }
        },
        (Stage::Pump, Event::State(state)) => {
            lemma_failed_tells(s, "connection lost"@, up);
        },
        (Stage::Pump, Event::Gone) => {
            lemma_failed_tells(s, "worker gone"@, up);
        },
        (Stage::SubscribeCall { address, step }, Event::Done(_)) => {
            lemma_greeting_tells(s, address, step, up);
            lemma_failed_tells(s, "subscribe call failed"@, up);
            assert(!told(up, seq![Act::Await(5000)]));
        },
        (Stage::Subscribing { address, step }, _) => {
            lemma_greeting_tells(s, address, step, up);
            lemma_failed_tells(s, "subscribe timed out"@, up);
        },
        _ => {
            assert(done.len() <= 4);
            if done.len() >= 1 {
                assert(done.drop_last().len() == done.len() - 1);
            }
        },
    }
}

proof fn lemma_failed_tells(s: State, why: Seq<char>, up: bool)
    ensures
        !told(up, failed(s, why).1),
{
    reveal_with_fuel(told, 4);
    let done = failed(s, why).1;
    assert(done.last() is Rest);
    assert(done.drop_last().last() is Status);
    assert(done.drop_last().drop_last().last() == Act::Connected(false));
}

/// A device is called only where it answered the scan (and is the pinned one,
/// where one is pinned), or where it is pinned and not expected to sleep. So a
/// chased board is never called before it was heard.
pub proof fn calls_are_justified(s: State, event: Event, i: int)
    requires
        0 <= i < next(s, event).1.len(),
        next(s, event).1[i] is Dial,
    ensures
        ({
            let address = next(s, event).1[i]->Dial_0;
            ||| event matches Event::Seen(device) && device.address@ == address && s.stage == (
            Stage::Scanning { survey: false }) && (s.session_mac is Some ==> alike(
                address,
                s.session_mac->0,
            ))
            ||| s.wish.mac == Some(address) && !s.wish.chase && s.wish.mode == Mode::Connect
        }),
{
}

/// A setting is written only over a connection that is up: as it comes up, or
/// while it is to the device that is wanted. The queue is then sent whole, in
/// order, and once.
pub proof fn writes_go_over_a_connection(s: State, event: Event, i: int)
    requires
        0 <= i < next(s, event).1.len(),
        next(s, event).1[i] is Write,
    ensures
        next(s, event).0.stage is Pump,
        next(s, event).0.wish.writes.len() == 0,
        s.stage is Pump ==> {
            &&& s.wish.mode == Mode::Connect
            &&& s.wish.mac == s.session_mac
            &&& next(s, event).1 == written(s.wish.writes)
        },
        !(s.stage is Pump) ==> exists|address: Seq<char>|
            next(s, event).1 == #[trigger] greeting(address) + written(s.wish.writes),
{
}

/// A write that was asked for while there was no connection goes out right after
/// the next subscribe, whatever is wanted by then.
pub proof fn waiting_writes_go_out_on_connect(s: State, event: Event)
    requires
        !(s.stage is Pump),
        next(s, event).0.stage is Pump,
    ensures
        next(s, event).0.wish == (Wish { writes: Seq::empty(), ..s.wish }),
        exists|address: Seq<char>|
            next(s, event).1 == #[trigger] greeting(address) + written(s.wish.writes),
{
}

/// Looking around never calls a device, and goes on until something else is
/// wanted.
pub proof fn looking_around_only_reports(s: State, event: Event)
    requires
        s.stage == (Stage::Scanning { survey: true }),
        s.wish.mode == Mode::Survey,
        !(event is Gone),
    ensures
        next(s, event).0 == s,
        forall|i: int|
            0 <= i < next(s, event).1.len() ==> (#[trigger] next(s, event).1[i]) is Discovered,
{
}

/// Nothing reconnects on its own: left alone, the transport stays off the air
/// until something is asked of it.
pub proof fn idle_stays_off_the_air(s: State, event: Event)
    requires
        s.stage is Idle,
        s.wish.mode == Mode::Idle,
    ensures
        next(s, event).0 == s,
        forall|i: int|
            0 <= i < next(s, event).1.len() ==> (#[trigger] next(s, event).1[i]) is Rest,
{
}

/// A device was called, so there may be a connection to hang up.
pub open spec fn has_called(stage: Stage) -> bool {
    match stage {
        Stage::Idle | Stage::Asking | Stage::ScanCall { .. } | Stage::Scanning { .. } => false,
        _ => true,
    }
}

/// A session that called a device never ends without hanging up, and telling the
/// UI so.
pub proof fn a_session_ends_with_hanging_up(s: State, event: Event)
    requires
        has_called(s.stage),
        !has_called(next(s, event).0.stage),
    ensures
        next(s, event).1[0] == Act::HangUp,
        next(s, event).1[1] == Act::Connected(false),
{
}

/// A connection is kept only while it is what is wanted: a Disconnect drops it,
/// and so does a scan, which then starts from a clean slate.
pub proof fn only_connect_keeps_the_link(s: State)
    requires
        s.stage is Pump,
        s.wish.mode != Mode::Connect,
    ensures
        next(s, Event::Poll).0.stage is Idle,
        next(s, Event::Poll).1[0] == Act::HangUp,
{
}

/// The board status is optional: no answer to its subscriptions, bad or missing,
/// breaks a session.
pub proof fn board_status_is_optional(s: State, event: Event)
    requires
        s.stage matches Stage::SubscribeCall { step, .. } ==> step >= 2,
        s.stage matches Stage::Subscribing { step, .. } ==> step >= 2,
        s.stage is SubscribeCall || s.stage is Subscribing,
    ensures
        has_called(next(s, event).0.stage),
{
}

/// What to do about the Bluetooth permissions.
#[derive(Clone, Copy, PartialEq, Eq, Debug, Structural)]
pub enum PermissionStep {
    /// They are there, or this system needs none.
    Granted,
    /// Ask for them, then look again in a while.
    Ask,
    /// Look again in a while.
    Wait,
}

/// The next step towards the Bluetooth permissions. Android 12+ makes them
/// runtime permissions; before that scanning rides on the location permission,
/// which the GPS source already requests. They are asked for at most every 20
/// seconds: the GPS thread may be showing its own dialog first, in which case
/// ours can get dropped. `asked` is how long ago they were last asked for, in
/// milliseconds.
pub fn permission_step(sdk: i32, granted: bool, asked: Option<u64>) -> (r: PermissionStep)
    ensures
        r == if sdk < 31 || granted {
            PermissionStep::Granted
        } else {
            match asked {
                Some(ms) => if ms > 20_000 {
                    PermissionStep::Ask
                } else {
                    PermissionStep::Wait
                },
                None => PermissionStep::Ask,
            }
        },
{
    if sdk < 31 || granted {
        PermissionStep::Granted
    } else {
        match asked {
            Some(ms) => if ms > 20_000 {
                PermissionStep::Ask
            } else {
                PermissionStep::Wait
            },
            None => PermissionStep::Ask,
        }
    }
}

} // verus!
