//! The Android transport: what each step of a session comes to.

use crate::ble::DiscoveredDevice;
use crate::laws::desktops::place;
use crate::laws::links::{lemma_alike, same_but_for_case};
use crate::link::android::{
    acts, failed, greeting, next, subscribed, switched, written, Act, Action, AndroidLink, Event,
    Stage, State,
};
use crate::link::{Channel, Mode};
use crate::text::{decimal, opt_text};
use vstd::prelude::*;

verus! {

/// A connection is kept by a poll exactly while it is to the device that is
/// wanted: a connection is what is wanted, and the pin is the one that the
/// session began with, or neither has one. Otherwise, whichever pin there was and
/// whichever is wanted now, the session is over, the device is hung up on and the
/// UI is told.
pub proof fn another_pin_ends_the_session(link: &mut AndroidLink, r: Vec<Action>)
    requires
        call_ensures(AndroidLink::step, (link, Event::Poll), r),
        old(link)@.stage is Pump,
    ensures
        ({
            let (s, after, done) = (old(link)@, final(link)@, acts(r@));
            let kept = s.wish.mode == Mode::Connect && s.wish.mac == s.session_mac;
            &&& kept <==> after.stage is Pump
            &&& kept ==> !done.contains(Act::HangUp) && !done.contains(Act::Connected(false))
            &&& !kept ==> after.stage is Idle && done.contains(Act::HangUp) && done.contains(
                Act::Connected(false),
            )
            &&& !kept ==> after.wish == s.wish
            &&& s.wish.mode != Mode::Connect ==> done.contains(Act::Status("disconnected"@))
            &&& s.wish.mode == Mode::Connect && !kept ==> done.contains(
                Act::Status("switching device"@ + "; retrying"@),
            ) && done.last() == Act::Rest(2000)
        }),
{
    let (s, done) = (old(link)@, acts(r@));
    if s.wish.mode != Mode::Connect {
        assert(done[0] == Act::HangUp);
        assert(done[1] == Act::Connected(false));
        assert(done[2] == Act::Status("disconnected"@));
    } else if s.wish.mac != s.session_mac {
        assert(done == switched(s).1);
        assert(done[0] == Act::HangUp);
        assert(done[1] == Act::Connected(false));
        assert(done[4] == Act::Status("switching device"@ + "; retrying"@));
    }
}

proof fn lemma_failed(s: State, why: Seq<char>)
    ensures
        ({
            let done = failed(s, why).1;
            &&& done.contains(Act::HangUp)
            &&& done.contains(Act::Connected(false))
            &&& done.contains(Act::Status(why + "; retrying"@))
            &&& done.last() == Act::Rest(2000)
            &&& failed(s, why).0 == (State { stage: Stage::Idle, ..s })
        }),
{
    let done = failed(s, why).1;
    assert(done[0] == Act::HangUp);
    assert(done[1] == Act::Connected(false));
    assert(done[2] == Act::Status(why + "; retrying"@));
}

/// While the connection is the wanted one a poll sends what waits to be written:
/// each setting once, in the order they were asked for, and nothing else.
pub proof fn a_poll_sends_what_waits(link: &mut AndroidLink, r: Vec<Action>)
    requires
        call_ensures(AndroidLink::step, (link, Event::Poll), r),
        old(link)@.stage is Pump,
        old(link)@.wish.mode == Mode::Connect,
        old(link)@.wish.mac == old(link)@.session_mac,
    ensures
        acts(r@).len() == old(link)@.wish.writes.len(),
        forall|i: int|
            0 <= i < acts(r@).len() ==> (#[trigger] acts(r@)[i]) == Act::Write(
                old(link)@.wish.writes[i],
            ),
        final(link)@.wish.writes.len() == 0,
        final(link)@.stage is Pump,
{
}

/// Nothing that happens changes what is wanted, but that what waited to be
/// written is gone once it was sent. The pin of a session is set as it begins, to
/// the one wanted then. A permission that was given stays given, and the
/// addresses stay.
pub proof fn events_do_not_change_the_wish(link: &mut AndroidLink, event: Event, r: Vec<Action>)
    requires
        call_ensures(AndroidLink::step, (link, event), r),
    ensures
        ({
            let (s, after) = (old(link)@, final(link)@);
            &&& after.wish.mode == s.wish.mode
            &&& after.wish.mac == s.wish.mac
            &&& after.wish.chase == s.wish.chase
            &&& after.wish.writes == s.wish.writes || after.wish.writes.len() == 0
            &&& after.wish.writes != s.wish.writes ==> after.stage is Pump
            &&& after.uuids == s.uuids
            &&& s.permitted ==> after.permitted
            &&& after.permitted && !s.permitted ==> s.stage is Asking && event == Event::Done(true)
            &&& s.stage is Idle && (after.stage is ScanCall || after.stage is DialCall)
                ==> after.session_mac == s.wish.mac
            &&& !(s.stage is Idle) ==> after.session_mac == s.session_mac
        }),
{
}

/// With nothing under way a poll begins what is wanted: it leaves where the UI
/// has gone, rests where nothing is wanted, and asks for the permissions that
/// are not there yet.
pub proof fn a_poll_begins_what_is_wanted(link: &mut AndroidLink, r: Vec<Action>)
    requires
        call_ensures(AndroidLink::step, (link, Event::Poll), r),
        old(link)@.stage is Idle,
    ensures
        ({
            let (s, after, done) = (old(link)@, final(link)@, acts(r@));
            &&& s.wish.mode == Mode::Closed ==> after == s && done == seq![Act::Exit]
            &&& s.wish.mode == Mode::Idle ==> after == s && done == seq![Act::Rest(200)]
            &&& (s.wish.mode == Mode::Connect || s.wish.mode == Mode::Survey) && !s.permitted
                ==> after == (State { stage: Stage::Asking, ..s }) && done == seq![
                Act::Status("waiting for Bluetooth permissions..."@),
                Act::AskPermissions,
            ]
        }),
{
}

/// A pinned device that is not expected to sleep is called straight off; in all
/// other cases a scan is started, to look around or to find one device as is
/// wanted. The UI reads that a wake window is waited for exactly where a pinned
/// device is chased.
pub proof fn a_session_calls_the_pin_or_scans(link: &mut AndroidLink, r: Vec<Action>)
    requires
        call_ensures(AndroidLink::step, (link, Event::Poll), r),
        old(link)@.stage is Idle,
        old(link)@.permitted,
        old(link)@.wish.mode == Mode::Connect || old(link)@.wish.mode == Mode::Survey,
    ensures
        ({
            let (s, after, done) = (old(link)@, final(link)@, acts(r@));
            let called = s.wish.mode == Mode::Connect && s.wish.mac is Some && !s.wish.chase;
            &&& done.len() == 3
            &&& done[0] == Act::Flush
            &&& after.session_mac == s.wish.mac
            &&& called ==> after.stage == (Stage::DialCall { address: s.wish.mac->0 }) && done[1]
                == Act::Status("connecting to "@ + s.wish.mac->0 + "..."@) && done[2] == Act::Dial(
                s.wish.mac->0,
            )
            &&& !called ==> done[2] == Act::StartScan && after.stage == (Stage::ScanCall {
                survey: s.wish.mode == Mode::Survey,
            })
            &&& s.wish.mode == Mode::Connect && s.wish.mac is Some && s.wish.chase ==> done[1]
                == Act::Status("waiting for a wake window..."@)
            &&& s.wish.mode == Mode::Survey || s.wish.mac is None ==> done[1] == Act::Status(
                "scanning for GPS beacon..."@,
            )
        }),
{
}

/// Permissions that were given are used from then on; without them there is
/// nothing to work for.
pub proof fn permissions_are_waited_for(link: &mut AndroidLink, granted: bool, r: Vec<Action>)
    requires
        call_ensures(AndroidLink::step, (link, Event::Done(granted)), r),
        old(link)@.stage is Asking,
    ensures
        final(link)@.stage is Idle,
        granted ==> final(link)@.permitted && acts(r@).len() == 0,
        !granted ==> acts(r@) == seq![Act::Exit] && final(link)@.permitted == old(link)@.permitted,
{
}

/// A scan that the platform took runs; one that it refused is told of, and the
/// link rests and tries again.
pub proof fn a_started_scan_runs(
    link: &mut AndroidLink,
    survey: bool,
    taken: bool,
    r: Vec<Action>,
)
    requires
        call_ensures(AndroidLink::step, (link, Event::Done(taken)), r),
        old(link)@.stage == (Stage::ScanCall { survey }),
    ensures
        taken ==> acts(r@).len() == 0 && final(link)@ == (State {
            stage: Stage::Scanning { survey },
            ..old(link)@
        }),
        !taken ==> final(link)@ == (State { stage: Stage::Idle, ..old(link)@ }) && acts(
            r@,
        ).contains(Act::Status("scan failed (Bluetooth off?)"@ + "; retrying"@)) && acts(
            r@,
        ).contains(Act::Connected(false)) && acts(r@).last() == Act::Rest(2000),
{
    lemma_failed(old(link)@, "scan failed (Bluetooth off?)"@);
}

/// A scan that runs goes on while it serves what is wanted, and is stopped as
/// soon as it does not.
pub proof fn a_scan_lasts_while_it_is_wanted(link: &mut AndroidLink, survey: bool, r: Vec<Action>)
    requires
        call_ensures(AndroidLink::step, (link, Event::Poll), r),
        old(link)@.stage == (Stage::Scanning { survey }),
    ensures
        ({
            let serves = (survey && old(link)@.wish.mode == Mode::Survey) || (!survey
                && old(link)@.wish.mode == Mode::Connect);
            &&& serves ==> acts(r@).len() == 0 && final(link)@ == old(link)@
            &&& !serves ==> acts(r@) == seq![Act::StopScan] && final(link)@ == (State {
                stage: Stage::Idle,
                ..old(link)@
            })
        }),
{
}

/// Looking around reports each board that answers, as it answered, and calls
/// none.
pub proof fn looking_around_reports_every_answer(
    link: &mut AndroidLink,
    device: DiscoveredDevice,
    r: Vec<Action>,
)
    requires
        call_ensures(AndroidLink::step, (link, Event::Seen(device)), r),
        old(link)@.stage == (Stage::Scanning { survey: true }),
    ensures
        final(link)@ == old(link)@,
        acts(r@).len() == 1,
        acts(r@)[0] is Discovered,
        acts(r@)[0]->Discovered_0.address == device.address@,
        acts(r@)[0]->Discovered_0.name == opt_text(device.name),
        acts(r@)[0]->Discovered_0.rssi == device.rssi,
{
}

/// A scan for one device calls the first that answers, and with one pinned the
/// first that has the pinned address, in any case; another board that answers is
/// passed over.
pub proof fn a_scan_goes_to_the_device_that_is_meant(
    link: &mut AndroidLink,
    device: DiscoveredDevice,
    r: Vec<Action>,
)
    requires
        call_ensures(AndroidLink::step, (link, Event::Seen(device)), r),
        old(link)@.stage == (Stage::Scanning { survey: false }),
    ensures
        ({
            let s = old(link)@;
            let meant = s.session_mac is None || same_but_for_case(
                device.address@,
                s.session_mac->0,
            );
            &&& meant ==> final(link)@ == (State {
                stage: Stage::DialCall { address: device.address@ },
                ..s
            }) && acts(r@) == seq![
                Act::StopScan,
                Act::Status("connecting to "@ + device.address@ + "..."@),
                Act::Dial(device.address@),
            ]
            &&& !meant ==> final(link)@ == s && acts(r@).len() == 0
        }),
{
    if old(link)@.session_mac is Some {
        lemma_alike(device.address@, old(link)@.session_mac->0);
    }
}

/// A call that the platform takes is waited for, each for its own time: a
/// connection 20 seconds, the services 10, a subscription 5.
pub proof fn an_answer_is_waited_for(link: &mut AndroidLink, r: Vec<Action>)
    requires
        call_ensures(AndroidLink::step, (link, Event::Done(true)), r),
        old(link)@.stage is DialCall || old(link)@.stage is DiscoverCall
            || old(link)@.stage is SubscribeCall,
    ensures
        ({
            let (s, after, done) = (old(link)@, final(link)@, acts(r@));
            &&& after == (State { stage: after.stage, ..s })
            &&& s.stage matches Stage::DialCall { address } ==> after.stage == (
            Stage::Connecting { address }) && done == seq![Act::Await(20000)]
            &&& s.stage matches Stage::DiscoverCall { address } ==> after.stage == (
            Stage::Discovering { address }) && done == seq![Act::Await(10000)]
            &&& s.stage matches Stage::SubscribeCall { address, step } ==> after.stage == (
            Stage::Subscribing { address, step }) && done == seq![Act::Await(5000)]
        }),
{
}

/// A connection that comes up leads on to the services of the same device, and
/// known services to the first subscription; another state or a bad status is
/// waited past.
pub proof fn a_call_leads_to_the_subscriptions(
    link: &mut AndroidLink,
    event: Event,
    address: Seq<char>,
    r: Vec<Action>,
)
    requires
        call_ensures(AndroidLink::step, (link, event), r),
        old(link)@.stage == (Stage::Connecting { address }) || old(link)@.stage == (
        Stage::Discovering { address }),
    ensures
        ({
            let (s, after, done) = (old(link)@, final(link)@, acts(r@));
            &&& s.stage is Connecting && event == Event::State(2) ==> after == (State {
                stage: Stage::DiscoverCall { address },
                ..s
            }) && done == seq![Act::DiscoverServices]
            &&& s.stage is Connecting && event is State && event != Event::State(2) ==> after == s
                && done.len() == 0
            &&& s.stage is Discovering && event == Event::Services(0) ==> after == (State {
                stage: Stage::SubscribeCall { address, step: 0 },
                ..s
            }) && done == seq![Act::Subscribe(Channel::Position)]
            &&& s.stage is Discovering && event is Services && event != Event::Services(0)
                ==> after == s && done.len() == 0
        }),
{
}

/// The characteristics are subscribed to one after the other, each once: an
/// accepted subscription, or one of the optional board status that is refused or
/// not answered, is followed by the next in their order.
pub proof fn subscriptions_follow_their_order(
    link: &mut AndroidLink,
    event: Event,
    address: Seq<char>,
    step: u8,
    channel: Channel,
    r: Vec<Action>,
)
    requires
        call_ensures(AndroidLink::step, (link, event), r),
        step < 4,
        place(channel) == step + 1,
        (old(link)@.stage == (Stage::Subscribing { address, step }) && (event == Event::Descriptor(
            0,
        ) || (step >= 2 && (event is Timeout || event is Gone)))) || (old(link)@.stage == (
        Stage::SubscribeCall { address, step }) && step >= 2 && event == Event::Done(false)),
    ensures
        acts(r@) == seq![Act::Subscribe(channel)],
        final(link)@ == (State {
            stage: Stage::SubscribeCall { address, step: (step + 1) as u8 },
            ..old(link)@
        }),
{
}

/// Once the last subscription is made, or is not to be had, the UI is told that
/// there is a connection and to which device, the settings are read, and then all
/// that waited to be written is sent, in its order.
pub proof fn a_connection_starts_with_what_waited(
    link: &mut AndroidLink,
    event: Event,
    address: Seq<char>,
    step: u8,
    r: Vec<Action>,
)
    requires
        call_ensures(AndroidLink::step, (link, event), r),
        step >= 4,
        (old(link)@.stage == (Stage::Subscribing { address, step }) && (event
            == Event::Descriptor(0) || event is Timeout || event is Gone)) || (old(link)@.stage == (
        Stage::SubscribeCall { address, step }) && event == Event::Done(false)),
    ensures
        ({
            let (s, after, done) = (old(link)@, final(link)@, acts(r@));
            &&& after.stage is Pump
            &&& after.wish.writes.len() == 0
            &&& done.len() == 3 + s.wish.writes.len()
            &&& done[0] == Act::Connected(true)
            &&& done[1] == Act::Status("connected to "@ + address)
            &&& done[2] == Act::ReadSettings
            &&& forall|i: int|
                0 <= i < s.wish.writes.len() ==> done[3 + i] == Act::Write(
                    #[trigger] s.wish.writes[i],
                )
        }),
{
    let s = old(link)@;
    let all = greeting(address) + written(s.wish.writes);
    assert(acts(r@) == all);
    assert forall|i: int| 0 <= i < s.wish.writes.len() implies all[3 + i] == Act::Write(
        #[trigger] s.wish.writes[i],
    ) by {}
}

/// A call that is refused, and an answer that does not come, each end the
/// session, but for the optional board status: the device is hung up on, the UI
/// reads what failed, and the link rests before it starts over.
pub proof fn a_failure_ends_the_session(link: &mut AndroidLink, event: Event, r: Vec<Action>)
    requires
        call_ensures(AndroidLink::step, (link, event), r),
        ({
            let stage = old(link)@.stage;
            ||| event == Event::Done(false) && (stage is DialCall || stage is DiscoverCall || (
            stage is SubscribeCall && stage->SubscribeCall_step < 2))
            ||| (event is Timeout || event is Gone) && (stage is Connecting
                || stage is Discovering || (stage is Subscribing && stage->Subscribing_step < 2))
        }),
    ensures
        ({
            let (s, done) = (old(link)@, acts(r@));
            let what = match s.stage {
                Stage::DialCall { .. } => "connect call failed"@,
                Stage::DiscoverCall { .. } => "service discovery call failed"@,
                Stage::SubscribeCall { .. } => "subscribe call failed"@,
                Stage::Connecting { .. } => "connect timed out"@,
                Stage::Discovering { .. } => "service discovery timed out"@,
                _ => "subscribe timed out"@,
            };
            &&& final(link)@ == (State { stage: Stage::Idle, ..s })
            &&& done.contains(Act::HangUp)
            &&& done.contains(Act::Connected(false))
            &&& done.contains(Act::Status(what + "; retrying"@))
            &&& done.last() == Act::Rest(2000)
        }),
{
    let s = old(link)@;
    lemma_failed(s, "connect call failed"@);
    lemma_failed(s, "service discovery call failed"@);
    lemma_failed(s, "subscribe call failed"@);
    lemma_failed(s, "connect timed out"@);
    lemma_failed(s, "service discovery timed out"@);
    lemma_failed(s, "subscribe timed out"@);
}

/// A subscription that is answered with a bad status is waited past.
pub proof fn a_bad_subscription_is_waited_past(
    link: &mut AndroidLink,
    status: i32,
    r: Vec<Action>,
)
    requires
        call_ensures(AndroidLink::step, (link, Event::Descriptor(status)), r),
        old(link)@.stage is Subscribing,
        status != 0,
    ensures
        final(link)@ == old(link)@,
        acts(r@).len() == 0,
{
}

/// A notification is decoded as what its address names, and one that names
/// nothing known is passed over; the connection goes on.
pub proof fn a_notification_is_decoded(
    link: &mut AndroidLink,
    uuid: String,
    named: &str,
    channel: Option<Channel>,
    r: Vec<Action>,
)
    requires
        call_ensures(AndroidLink::step, (link, Event::Notify(uuid)), r),
        call_ensures(crate::link::Uuids::channel, (&old(link).uuids, named), channel),
        named@ == uuid@,
        old(link)@.stage is Pump,
    ensures
        final(link)@ == old(link)@,
        channel is Some ==> acts(r@) == seq![Act::Decode(channel->0)],
        channel is None ==> acts(r@).len() == 0,
{
}

/// A write that the platform refuses, or that the board answers with anything
/// but zero, is told of and does not end the connection; one that goes well needs
/// no word.
pub proof fn a_failed_write_keeps_the_connection(
    link: &mut AndroidLink,
    event: Event,
    r: Vec<Action>,
)
    requires
        call_ensures(AndroidLink::step, (link, event), r),
        old(link)@.stage is Pump,
        event is Done || event is Written,
    ensures
        final(link)@ == old(link)@,
        event == Event::Done(true) || event == Event::Written(0) ==> acts(r@).len() == 0,
        event == Event::Done(false) ==> acts(r@) == seq![Act::Status("config write failed"@)],
        event matches Event::Written(status) ==> {
            &&& status > 0 ==> acts(r@) == seq![
                Act::Status("config write rejected (status "@ + decimal(status as nat) + ")"@),
            ]
            &&& status < 0 ==> acts(r@) == seq![
                Act::Status(
                    "config write rejected (status "@ + (seq!['-'] + decimal((-status) as nat))
                        + ")"@,
                ),
            ]
        },
{
}

/// A connection that goes down is lost, and with the callbacks gone there is
/// none either; any other change of state leaves it.
pub proof fn a_connection_that_goes_down_is_lost(
    link: &mut AndroidLink,
    event: Event,
    r: Vec<Action>,
)
    requires
        call_ensures(AndroidLink::step, (link, event), r),
        old(link)@.stage is Pump,
        event is State || event is Gone,
    ensures
        ({
            let (s, after, done) = (old(link)@, final(link)@, acts(r@));
            let lost = event == Event::State(0) || event is Gone;
            &&& lost ==> after == (State { stage: Stage::Idle, ..s }) && done.contains(Act::HangUp)
                && done.contains(Act::Connected(false)) && done.last() == Act::Rest(2000)
            &&& event == Event::State(0) ==> done.contains(
                Act::Status("connection lost"@ + "; retrying"@),
            )
            &&& event is Gone ==> done.contains(Act::Status("worker gone"@ + "; retrying"@))
            &&& !lost ==> after == s && done.len() == 0
        }),
{
    lemma_failed(old(link)@, "connection lost"@);
    lemma_failed(old(link)@, "worker gone"@);
}

/// With the callbacks gone a scan is over too.
pub proof fn a_scan_ends_with_the_callbacks(link: &mut AndroidLink, r: Vec<Action>)
    requires
        call_ensures(AndroidLink::step, (link, Event::Gone), r),
        old(link)@.stage is Scanning,
    ensures
        final(link)@ == (State { stage: Stage::Idle, ..old(link)@ }),
        acts(r@).contains(Act::HangUp),
        acts(r@).contains(Act::Connected(false)),
        acts(r@).contains(Act::Status("worker gone"@ + "; retrying"@)),
        acts(r@).last() == Act::Rest(2000),
{
    lemma_failed(old(link)@, "worker gone"@);
}

/// What nothing waits for changes nothing and makes nothing be done.
pub proof fn what_nothing_waits_for_is_passed_over(
    link: &mut AndroidLink,
    event: Event,
    r: Vec<Action>,
)
    requires
        call_ensures(AndroidLink::step, (link, event), r),
        ({
            let stage = old(link)@.stage;
            match event {
                Event::Poll => !(stage is Idle) && !(stage is Scanning) && !(stage is Pump),
                Event::Done(_) => stage is Idle || stage is Scanning || stage is Connecting
                    || stage is Discovering || stage is Subscribing,
                Event::Timeout => !(stage is Connecting) && !(stage is Discovering) && !(
                stage is Subscribing),
                Event::Gone => !(stage is Scanning) && !(stage is Connecting) && !(
                stage is Discovering) && !(stage is Subscribing) && !(stage is Pump),
                Event::Seen(_) => !(stage is Scanning),
                Event::State(_) => !(stage is Connecting) && !(stage is Pump),
                Event::Services(_) => !(stage is Discovering),
                Event::Descriptor(_) => !(stage is Subscribing),
                _ => !(stage is Pump),
            }
        }),
    ensures
        final(link)@ == old(link)@,
        acts(r@).len() == 0,
{
}

} // verus!
