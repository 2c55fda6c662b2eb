//! The link to the beacon: what the UI wants of it, and the two transports'
//! decisions, each a machine from what happened to what to do next.
//!
//! A transport's machine decides; whoever runs it performs the actions in the
//! order given and hands back what came of them.

pub mod android;
pub mod desktop;

use crate::ble::{
    settings_event, Ack, BleCommand, BleEvent, ConfigWrite, PositionPacket, Settings, Telemetry,
};
use crate::text::{opt_text, same_ignoring_case};
use vstd::prelude::*;

verus! {

/// What the UI currently wants from the link.
#[derive(Clone, Copy, PartialEq, Eq, Debug, Structural)]
pub enum Mode {
    /// Stay off the air.
    Idle,
    /// Be connected to the beacon.
    Connect,
    /// Look around and report, without connecting.
    Survey,
    /// The UI has gone away.
    Closed,
}

/// What the UI currently wants from us.
pub struct Wanted {
    pub mode: Mode,
    /// The pinned device; `None` takes the first one that offers the service.
    pub mac: Option<String>,
    /// The board may be asleep: listen for it rather than calling it.
    pub chase: bool,
    /// Config writes that wait for a connection, oldest first.
    pub writes: Vec<ConfigWrite>,
}

/// What a [`Wanted`] says.
pub struct Wish {
    pub mode: Mode,
    pub mac: Option<Seq<char>>,
    pub chase: bool,
    pub writes: Seq<ConfigWrite>,
}

impl View for Wanted {
    type V = Wish;

    open spec fn view(&self) -> Wish {
        Wish {
            mode: self.mode,
            mac: opt_text(self.mac),
            chase: self.chase,
            writes: self.writes@,
        }
    }
}

/// What is wanted after a command.
pub open spec fn wish_after(w: Wish, command: BleCommand) -> Wish {
    if w.mode == Mode::Closed {
        w
    } else {
        match command {
            BleCommand::Connect { mac, chase } => Wish {
                mode: Mode::Connect,
                mac: opt_text(mac),
                chase,
                ..w
            },
            BleCommand::Scan => Wish { mode: Mode::Survey, ..w },
            BleCommand::Config(write) => Wish { writes: w.writes.push(write), ..w },
            BleCommand::Disconnect => Wish { mode: Mode::Idle, ..w },
        }
    }
}

/// What is wanted after a whole queue of commands, first to last.
pub open spec fn wish_after_all(w: Wish, commands: Seq<BleCommand>) -> Wish
    decreases commands.len(),
{
    if commands.len() == 0 {
        w
    } else {
        wish_after(wish_after_all(w, commands.drop_last()), commands.last())
    }
}

impl Wanted {
    /// Nothing is wanted at first.
    pub fn new() -> (r: Self)
        ensures
            r@ == (Wish { mode: Mode::Idle, mac: None, chase: false, writes: Seq::empty() }),
    {
        let r = Wanted { mode: Mode::Idle, mac: None, chase: false, writes: Vec::new() };
        assert(r.writes@ =~= Seq::empty());
        r
    }

    /// Takes one command. Config writes are queued, so that a request made
    /// while connected is applied in the pump and one made while disconnected
    /// right after the next subscribe.
    pub fn take(&mut self, command: BleCommand)
        ensures
            final(self)@ == wish_after(old(self)@, command),
    {
        if self.mode == Mode::Closed {
            return;
        }
        match command {
            BleCommand::Connect { mac, chase } => {
                self.mode = Mode::Connect;
                self.mac = mac;
                self.chase = chase;
            },
            BleCommand::Scan => {
                self.mode = Mode::Survey;
            },
            BleCommand::Config(write) => {
                self.writes.push(write);
            },
            BleCommand::Disconnect => {
                self.mode = Mode::Idle;
            },
        }
    }

    /// Takes everything that is in the queue, in one pass.
    pub fn drain_commands(&mut self, commands: Vec<BleCommand>)
        ensures
            final(self)@ == wish_after_all(old(self)@, commands@),
    {
        let ghost start = self@;
        let ghost all = commands@;
        proof {
            assert(all.take(0) =~= Seq::empty());
        }
        for command in it: commands
            invariant
                it.seq() == all,
                self@ == wish_after_all(start, all.take(it.index() as int)),
        {
            proof {
                let i = it.index() as int;
                assert(all.take(i + 1).drop_last() =~= all.take(i));
                assert(all.take(i + 1).last() == all[i]);
            }
            self.take(command);
        }
        assert(all.take(all.len() as int) =~= all);
    }

    /// The UI has gone away: nothing is wanted any more, for good.
    pub fn close(&mut self)
        ensures
            final(self)@ == (Wish { mode: Mode::Closed, ..old(self)@ }),
    {
        self.mode = Mode::Closed;
    }
}

/// A command that says what to do with the link, as against one that writes a
/// setting.
pub open spec fn steers(command: BleCommand) -> bool {
    !(command is Config)
}

/// The last command about the link wins: whatever was queued before it has no
/// effect on what the link does, which is why a button must send one command.
pub proof fn last_command_wins(w: Wish, before: Seq<BleCommand>, last: BleCommand)
    requires
        steers(last),
        w.mode != Mode::Closed,
    ensures
        ({
            let alone = wish_after(w, last);
            let queued = wish_after_all(w, before.push(last));
            &&& queued.mode == alone.mode
            &&& last is Connect ==> queued.mac == alone.mac && queued.chase == alone.chase
        }),
{
    assert(before.push(last).drop_last() =~= before);
    stays_open(w, before);
}

/// Commands never close the link for good.
pub proof fn stays_open(w: Wish, commands: Seq<BleCommand>)
    requires
        w.mode != Mode::Closed,
    ensures
        wish_after_all(w, commands).mode != Mode::Closed,
    decreases commands.len(),
{
    if commands.len() > 0 {
        stays_open(w, commands.drop_last());
    }
}

/// The config writes of a queue, in order.
pub open spec fn writes_in(commands: Seq<BleCommand>) -> Seq<ConfigWrite>
    decreases commands.len(),
{
    if commands.len() == 0 {
        Seq::empty()
    } else {
        let before = writes_in(commands.drop_last());
        match commands.last() {
            BleCommand::Config(write) => before.push(write),
            _ => before,
        }
    }
}

/// No config write is lost or reordered, whatever else is in the queue.
pub proof fn writes_are_kept_in_order(w: Wish, commands: Seq<BleCommand>)
    requires
        w.mode != Mode::Closed,
    ensures
        wish_after_all(w, commands).writes == w.writes + writes_in(commands),
    decreases commands.len(),
{
    if commands.len() == 0 {
        assert(w.writes + Seq::<ConfigWrite>::empty() =~= w.writes);
    } else {
        writes_are_kept_in_order(w, commands.drop_last());
        stays_open(w, commands.drop_last());
        let before = writes_in(commands.drop_last());
        match commands.last() {
            BleCommand::Config(write) => {
                assert((w.writes + before).push(write) =~= w.writes + before.push(write));
            },
            _ => {},
        }
    }
}

/// A characteristic of the beacon's service.
#[derive(Clone, Copy, PartialEq, Eq, Debug, Structural)]
pub enum Channel {
    Position,
    Ack,
    Telemetry,
    Log,
    Settings,
}

/// The addresses of the beacon's characteristics.
pub struct Uuids {
    pub position: String,
    pub ack: String,
    pub telemetry: String,
    pub log: String,
    pub settings: String,
}

/// The characteristic that a notification comes from.
pub open spec fn channel_of(uuids: Uuids, uuid: Seq<char>) -> Option<Channel> {
    if crate::text::alike(uuid, uuids.position@) {
        Some(Channel::Position)
    } else if crate::text::alike(uuid, uuids.ack@) {
        Some(Channel::Ack)
    } else if crate::text::alike(uuid, uuids.telemetry@) {
        Some(Channel::Telemetry)
    } else if crate::text::alike(uuid, uuids.log@) {
        Some(Channel::Log)
    } else if crate::text::alike(uuid, uuids.settings@) {
        Some(Channel::Settings)
    } else {
        None
    }
}

impl Uuids {
    /// The characteristic that a notification comes from; `None` for one that
    /// is nobody's business here. The case of the digits does not matter.
    pub fn channel(&self, uuid: &str) -> (r: Option<Channel>)
        ensures
            r == channel_of(*self, uuid@),
    {
        if same_ignoring_case(uuid, self.position.as_str()) {
            Some(Channel::Position)
        } else if same_ignoring_case(uuid, self.ack.as_str()) {
            Some(Channel::Ack)
        } else if same_ignoring_case(uuid, self.telemetry.as_str()) {
            Some(Channel::Telemetry)
        } else if same_ignoring_case(uuid, self.log.as_str()) {
            Some(Channel::Log)
        } else if same_ignoring_case(uuid, self.settings.as_str()) {
            Some(Channel::Settings)
        } else {
            None
        }
    }
}

/// A notification after its bytes were decoded; `None` where they did not
/// decode.
pub enum Incoming {
    Position(Option<PositionPacket>),
    Ack(Option<Ack>),
    Telemetry(Option<Telemetry>),
    Log(String),
    Settings(Option<Settings>),
}

/// What the UI is told about a notification: nothing where a packet did not
/// decode, but for the settings, whose failure to decode is news by itself.
pub fn incoming_event(incoming: Incoming) -> (r: Option<BleEvent>)
    ensures
        r == match incoming {
            Incoming::Position(Some(p)) => Some(BleEvent::Fix(p)),
            Incoming::Ack(Some(a)) => Some(BleEvent::Ack(a)),
            Incoming::Telemetry(Some(t)) => Some(BleEvent::Telemetry(t)),
            Incoming::Log(line) => Some(BleEvent::Log(line)),
            Incoming::Settings(Some(s)) => Some(BleEvent::Settings(s)),
            Incoming::Settings(None) => Some(BleEvent::SettingsUnsupported),
            _ => None,
        },
{
    match incoming {
        Incoming::Position(Some(p)) => Some(BleEvent::Fix(p)),
        Incoming::Ack(Some(a)) => Some(BleEvent::Ack(a)),
        Incoming::Telemetry(Some(t)) => Some(BleEvent::Telemetry(t)),
        Incoming::Log(line) => Some(BleEvent::Log(line)),
        Incoming::Settings(decoded) => Some(settings_event(decoded)),
        _ => None,
    }
}

} // verus!
