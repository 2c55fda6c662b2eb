//! What the UI's commands and the beacon's notifications come to.

use crate::ble::{BleCommand, BleEvent};
use crate::link::android::{permission_step, AndroidLink, PermissionStep};
use crate::link::desktop::DesktopLink;
use crate::link::{incoming_event, wish_after_all, Channel, Incoming, Mode, Uuids, Wanted, Wish};
use crate::text::{alike, opt_text};
use vstd::prelude::*;

verus! {

/// A Connect makes the link want the device it names, chased as it says; a Scan
/// or a Disconnect changes only what is to be done, and keeps the pin; a setting
/// to write waits behind those that wait already. A link that was closed takes no
/// command at all.
pub proof fn a_command_is_taken_as_it_is(wanted: &mut Wanted, command: BleCommand)
    requires
        call_ensures(Wanted::take, (wanted, command), ()),
    ensures
        ({
            let (before, after) = (old(wanted)@, final(wanted)@);
            let open = before.mode != Mode::Closed;
            &&& !open ==> after == before
            &&& open && command is Connect ==> after.mode == Mode::Connect && after.mac == opt_text(
                command->mac,
            ) && after.chase == command->chase && after.writes == before.writes
            &&& open && command is Scan ==> after == (Wish { mode: Mode::Survey, ..before })
            &&& open && command is Disconnect ==> after == (Wish { mode: Mode::Idle, ..before })
            &&& open && command is Config ==> {
                &&& after.mode == before.mode && after.mac == before.mac && after.chase
                    == before.chase
                &&& after.writes.len() == before.writes.len() + 1
                &&& after.writes.drop_last() == before.writes
                &&& after.writes.last() == command->Config_0
            }
        }),
{
    if command is Config && old(wanted)@.mode != Mode::Closed {
        assert(final(wanted)@.writes.drop_last() =~= old(wanted)@.writes);
    }
}

/// A queue of one command is that command; of two, the second is taken after the
/// first.
pub proof fn a_queue_is_taken_in_order(
    one: &mut Wanted,
    then: &mut Wanted,
    all: &mut Wanted,
    commands: Vec<BleCommand>,
    first: Vec<BleCommand>,
    last: BleCommand,
)
    requires
        *old(all) == *old(one),
        *old(then) == *final(one),
        commands@ == first@.push(last),
        call_ensures(Wanted::drain_commands, (one, first), ()),
        call_ensures(Wanted::take, (then, last), ()),
        call_ensures(Wanted::drain_commands, (all, commands), ()),
    ensures
        final(all)@ == final(then)@,
        first@.len() == 0 ==> final(one)@ == old(one)@,
{
    assert(commands@.drop_last() =~= first@);
}

/// The last command about the link decides what it does; the pin is that of the
/// last Connect.
pub proof fn the_last_word_counts(
    wanted: &mut Wanted,
    commands: Vec<BleCommand>,
    i: int,
)
    requires
        call_ensures(Wanted::drain_commands, (wanted, commands), ()),
        old(wanted)@.mode != Mode::Closed,
        0 <= i < commands@.len(),
        !(commands@[i] is Config),
        forall|j: int| i < j < commands@.len() ==> (#[trigger] commands@[j]) is Config,
    ensures
        commands@[i] is Connect ==> final(wanted)@.mode == Mode::Connect && final(wanted)@.mac
            == opt_text(commands@[i]->mac) && final(wanted)@.chase == commands@[i]->chase,
        commands@[i] is Scan ==> final(wanted)@.mode == Mode::Survey,
        commands@[i] is Disconnect ==> final(wanted)@.mode == Mode::Idle,
{
    lemma_last_word(old(wanted)@, commands@, i);
}

proof fn lemma_last_word(w: Wish, commands: Seq<BleCommand>, i: int)
    requires
        w.mode != Mode::Closed,
        0 <= i < commands.len(),
        !(commands[i] is Config),
        forall|j: int| i < j < commands.len() ==> (#[trigger] commands[j]) is Config,
    ensures
        ({
            let after = wish_after_all(w, commands);
            &&& commands[i] is Connect ==> after.mode == Mode::Connect && after.mac == opt_text(
                commands[i]->mac,
            ) && after.chase == commands[i]->chase
            &&& commands[i] is Scan ==> after.mode == Mode::Survey
            &&& commands[i] is Disconnect ==> after.mode == Mode::Idle
        }),
    decreases commands.len(),
{
    crate::link::stays_open(w, commands.drop_last());
    if i < commands.len() - 1 {
        assert(commands.drop_last()[i] == commands[i]);
        assert forall|j: int| i < j < commands.drop_last().len() implies (
        #[trigger] commands.drop_last()[j]) is Config by {
            assert(commands[j] is Config);
        }
        lemma_last_word(w, commands.drop_last(), i);
        assert(commands[commands.len() - 1] is Config);
    }
}

/// Closing wants nothing any more and takes nothing back: the pin and what waits
/// to be written stay, and no command opens the link again.
pub proof fn closing_is_for_good(
    closed: &mut Wanted,
    later: &mut Wanted,
    command: BleCommand,
)
    requires
        call_ensures(Wanted::close, (closed,), ()),
        *old(later) == *final(closed),
        call_ensures(Wanted::take, (later, command), ()),
    ensures
        final(closed)@ == (Wish { mode: Mode::Closed, ..old(closed)@ }),
        final(later)@ == final(closed)@,
{
}

/// Two texts are the same but for the case of their ASCII letters.
pub open spec fn same_but_for_case(a: Seq<char>, b: Seq<char>) -> bool {
    &&& a.len() == b.len()
    &&& forall|i: int|
        0 <= i < a.len() ==> {
            let (x, y) = (#[trigger] a[i] as int, b[i] as int);
            ||| x == y
            ||| 65 <= x <= 90 && y == x + 32
            ||| 97 <= x <= 122 && y == x - 32
        }
}

/// Comparing without regard to case is comparing every character but for the case
/// of ASCII letters.
pub proof fn lemma_alike(a: Seq<char>, b: Seq<char>)
    ensures
        alike(a, b) <==> same_but_for_case(a, b),
{
    if alike(a, b) {
        assert forall|i: int| 0 <= i < a.len() implies {
            let (x, y) = (#[trigger] a[i] as int, b[i] as int);
            ||| x == y
            ||| 65 <= x <= 90 && y == x + 32
            ||| 97 <= x <= 122 && y == x - 32
        } by {
            lemma_letter(a[i], b[i]);
            assert(crate::text::ascii_lower(a[i]) == crate::text::ascii_lower(b[i]));
        }
    }
    if same_but_for_case(a, b) {
        assert forall|i: int| 0 <= i < a.len() implies crate::text::ascii_lower(#[trigger] a[i])
            == crate::text::ascii_lower(b[i]) by {
            lemma_letter(a[i], b[i]);
        }
    }
}

proof fn lemma_letter(a: char, b: char)
    ensures
        crate::text::ascii_lower(a) == crate::text::ascii_lower(b) <==> ({
            let (x, y) = (a as int, b as int);
            ||| x == y
            ||| 65 <= x <= 90 && y == x + 32
            ||| 97 <= x <= 122 && y == x - 32
        }),
{
    let (p, q) = (crate::text::ascii_lower(a), crate::text::ascii_lower(b));
    assert(65 <= a as int <= 90 ==> p as int == a as int + 32);
    assert(65 <= b as int <= 90 ==> q as int == b as int + 32);
    assert(p == q <==> p as int == q as int);
}

/// A notification is of the characteristic whose address it names, in any case,
/// and of none where it names none of theirs.
pub proof fn a_notification_is_of_the_named_channel(uuids: Uuids, uuid: &str, r: Option<Channel>)
    requires
        call_ensures(Uuids::channel, (&uuids, uuid), r),
    ensures
        r == Some(Channel::Position) <==> same_but_for_case(uuid@, uuids.position@),
        r == Some(Channel::Ack) ==> same_but_for_case(uuid@, uuids.ack@),
        r == Some(Channel::Telemetry) ==> same_but_for_case(uuid@, uuids.telemetry@),
        r == Some(Channel::Log) ==> same_but_for_case(uuid@, uuids.log@),
        r == Some(Channel::Settings) ==> same_but_for_case(uuid@, uuids.settings@),
        r is None <==> !same_but_for_case(uuid@, uuids.position@) && !same_but_for_case(
            uuid@,
            uuids.ack@,
        ) && !same_but_for_case(uuid@, uuids.telemetry@) && !same_but_for_case(uuid@, uuids.log@)
            && !same_but_for_case(uuid@, uuids.settings@),
{
    lemma_alike(uuid@, uuids.position@);
    lemma_alike(uuid@, uuids.ack@);
    lemma_alike(uuid@, uuids.telemetry@);
    lemma_alike(uuid@, uuids.log@);
    lemma_alike(uuid@, uuids.settings@);
}

/// What decodes is handed on as it is, each kind as its own event; what does not
/// is dropped, but for settings, which are then reported as unknown.
pub proof fn what_decodes_is_handed_on(incoming: Incoming, r: Option<BleEvent>)
    requires
        call_ensures(incoming_event, (incoming,), r),
    ensures
        incoming matches Incoming::Position(Some(p)) ==> r == Some(BleEvent::Fix(p)),
        incoming matches Incoming::Ack(Some(a)) ==> r == Some(BleEvent::Ack(a)),
        incoming matches Incoming::Telemetry(Some(t)) ==> r == Some(BleEvent::Telemetry(t)),
        incoming matches Incoming::Log(line) ==> r == Some(BleEvent::Log(line)),
        incoming matches Incoming::Settings(Some(s)) ==> r == Some(BleEvent::Settings(s)),
        incoming == Incoming::Settings(None) ==> r == Some(BleEvent::SettingsUnsupported),
        r is None <==> incoming == Incoming::Position(None) || incoming == Incoming::Ack(None)
            || incoming == Incoming::Telemetry(None),
{
}

/// The Bluetooth permissions are asked for only on systems from 31 on, only
/// while they are not granted, and no sooner than 20 seconds after the last time.
pub proof fn permissions_are_asked_for_now_and_then(
    sdk: i32,
    granted: bool,
    asked: Option<u64>,
    r: PermissionStep,
)
    requires
        call_ensures(permission_step, (sdk, granted, asked), r),
    ensures
        r == PermissionStep::Granted <==> granted || sdk <= 30,
        r == PermissionStep::Ask ==> sdk >= 31 && !granted && (asked is Some ==> asked->0 > 20_000),
        r == PermissionStep::Wait ==> sdk >= 31 && !granted && asked is Some && asked->0 <= 20_000,
{
}

/// At first nothing is wanted of a link: it is to stay off the air, with no pin,
/// nothing to chase and nothing to write.
pub proof fn a_link_starts_with_nothing_wanted(
    wanted: Wanted,
    uuids: Uuids,
    beacon_name: String,
    desktop: DesktopLink,
    android: AndroidLink,
)
    requires
        call_ensures(Wanted::new, (), wanted),
        call_ensures(DesktopLink::new, (uuids, beacon_name), desktop),
        call_ensures(AndroidLink::new, (uuids,), android),
    ensures
        wanted@.mode == Mode::Idle,
        wanted@.mac is None,
        !wanted@.chase,
        wanted@.writes.len() == 0,
        desktop@.wish == wanted@,
        desktop@.stage is Idle,
        desktop@.session_mac is None,
        desktop@.uuids == uuids,
        desktop@.beacon_name == beacon_name@,
        android@.wish == wanted@,
        android@.stage is Idle,
        android@.session_mac is None,
        !android@.permitted,
        android@.uuids == uuids,
{
    assert(wanted@.writes =~= Seq::empty());
}

} // verus!
