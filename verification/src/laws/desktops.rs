//! The desktop transport: what each step of a session comes to.

use crate::laws::links::{lemma_alike, same_but_for_case};
use crate::link::android::found;
use crate::link::desktop::{
    acts, broken, find_match, first_match, greeting, is_beacon, is_match, next, reported, written,
    Act, Action, Advert, DesktopLink, Event, Offer, Stage, State,
};
use crate::link::{Channel, Mode};
use crate::text::opt_text;
use vstd::prelude::*;

verus! {

/// A connection is kept by a poll exactly while it is to the device that is
/// wanted: a connection is what is wanted, and the pin is the one that the
/// session began with, or neither has one. Otherwise, whichever pin there was and
/// whichever is wanted now, the session is over, the device is hung up on and the
/// UI is told.
pub proof fn another_pin_ends_the_session(link: &mut DesktopLink, r: Vec<Action>)
    requires
        call_ensures(DesktopLink::step, (link, Event::Poll), r),
        old(link)@.stage is Pump,
    ensures
        ({
            let (s, after, done) = (old(link)@, final(link)@, acts(r@));
            let kept = s.wish.mode == Mode::Connect && s.wish.mac == s.session_mac;
            &&& kept <==> after.stage is Pump
            &&& kept ==> after.stage == s.stage && !done.contains(Act::HangUp) && !done.contains(
                Act::Connected(false),
            )
            &&& !kept ==> after.stage is Idle && done.contains(Act::HangUp) && done.contains(
                Act::Connected(false),
            )
            &&& !kept ==> after.wish == s.wish
            &&& s.wish.mode != Mode::Connect ==> done.contains(Act::Status("disconnected"@))
            &&& s.wish.mode == Mode::Connect && !kept ==> done.contains(
                Act::Status("switching device"@ + "; retrying"@),
            ) && done.last() == Act::Rest(2000)
        }),
{
    let (s, done) = (old(link)@, acts(r@));
    if s.wish.mode != Mode::Connect {
        assert(done[0] == Act::Status("disconnected"@));
        assert(done[1] == Act::HangUp);
        assert(done[2] == Act::Connected(false));
    } else if s.wish.mac != s.session_mac {
        lemma_broken(s, "switching device"@);
    }
}

proof fn lemma_broken(s: State, why: Seq<char>)
    ensures
        ({
            let done = broken(s, why).1;
            &&& done.contains(Act::HangUp)
            &&& done.contains(Act::Connected(false))
            &&& done.contains(Act::Status(why + "; retrying"@))
            &&& done.last() == Act::Rest(2000)
            &&& broken(s, why).0 == (State { stage: Stage::Idle, ..s })
            &&& forall|i: int|
                0 <= i < done.len() ==> !((#[trigger] done[i]) is Dial) && !(done[i] is StartScan)
                    && !(done[i] is Write) && done[i] != Act::Connected(true)
        }),
{
    let done = broken(s, why).1;
    assert(done[0] == Act::HangUp);
    assert(done[1] == Act::Connected(false));
    assert(done[3] == Act::Status(why + "; retrying"@));
}

/// While the connection is the wanted one a poll sends what waits to be written:
/// each setting once, in the order they were asked for, and nothing else.
pub proof fn a_poll_sends_what_waits(link: &mut DesktopLink, r: Vec<Action>)
    requires
        call_ensures(DesktopLink::step, (link, Event::Poll), r),
        old(link)@.stage is Pump,
        old(link)@.wish.mode == Mode::Connect,
        old(link)@.wish.mac == old(link)@.session_mac,
    ensures
        acts(r@).len() == old(link)@.wish.writes.len(),
        forall|i: int|
            0 <= i < acts(r@).len()
                ==> (#[trigger] acts(r@)[i]) == Act::Write(old(link)@.wish.writes[i]),
        final(link)@.wish.writes.len() == 0,
        final(link)@.stage == old(link)@.stage,
{
}

/// Nothing that happens changes what is wanted, but that what waited to be
/// written is gone once it was sent. The pin of a session is set as it begins, to
/// the one wanted then. The addresses stay.
pub proof fn events_do_not_change_the_wish(link: &mut DesktopLink, event: Event, r: Vec<Action>)
    requires
        call_ensures(DesktopLink::step, (link, event), r),
    ensures
        ({
            let (s, after) = (old(link)@, final(link)@);
            &&& after.wish.mode == s.wish.mode
            &&& after.wish.mac == s.wish.mac
            &&& after.wish.chase == s.wish.chase
            &&& after.wish.writes == s.wish.writes || after.wish.writes.len() == 0
            &&& after.wish.writes != s.wish.writes ==> after.stage is Pump
            &&& after.uuids == s.uuids
            &&& after.beacon_name == s.beacon_name
            &&& s.stage is AdapterCall && event == Event::Adapter(true) ==> after.session_mac
                == s.wish.mac
            &&& !(s.stage is AdapterCall) || event != Event::Adapter(true) ==> after.session_mac
                == s.session_mac
        }),
{
}

/// With nothing under way a poll begins what is wanted: it leaves where the UI
/// has gone, rests where nothing is wanted, and otherwise looks for an adapter.
pub proof fn a_poll_begins_what_is_wanted(link: &mut DesktopLink, r: Vec<Action>)
    requires
        call_ensures(DesktopLink::step, (link, Event::Poll), r),
        old(link)@.stage is Idle,
    ensures
        acts(r@).len() == 1,
        old(link)@.wish.mode == Mode::Closed ==> acts(r@)[0] is Exit && final(link)@.stage is Idle,
        old(link)@.wish.mode == Mode::Idle ==> acts(r@)[0] == Act::Rest(200)
            && final(link)@.stage is Idle,
        old(link)@.wish.mode == Mode::Connect || old(link)@.wish.mode == Mode::Survey ==> acts(
            r@,
        )[0] is FindAdapter && final(link)@.stage is AdapterCall,
{
}

/// With an adapter a scan is started, to look around or to find one device as is
/// wanted; the UI reads that a wake window is waited for exactly where a pinned
/// device is chased. Without one the link rests and tries again.
pub proof fn a_session_starts_with_a_scan(link: &mut DesktopLink, there: bool, r: Vec<Action>)
    requires
        call_ensures(DesktopLink::step, (link, Event::Adapter(there)), r),
        old(link)@.stage is AdapterCall,
    ensures
        acts(r@).len() == 2,
        there ==> final(link)@.stage == (Stage::ScanCall {
            survey: old(link)@.wish.mode == Mode::Survey,
        }) && acts(r@)[1] is StartScan,
        there && old(link)@.wish.mode != Mode::Survey && old(link)@.wish.chase
            && old(link)@.wish.mac is Some
            ==> acts(r@)[0] == Act::Status("waiting for a wake window..."@),
        there && (old(link)@.wish.mode == Mode::Survey || !old(link)@.wish.chase
            || old(link)@.wish.mac is None)
            ==> acts(r@)[0] == Act::Status("scanning for GPS beacon..."@),
        !there ==> final(link)@.stage is Idle && acts(r@)[0] == Act::Status(
            "no Bluetooth adapter found"@,
        ) && acts(r@)[1] == Act::Rest(3000),
{
}

/// A scan that runs is looked at again and again while it serves what is wanted,
/// and is stopped as soon as it does not.
pub proof fn a_scan_lasts_while_it_is_wanted(
    link: &mut DesktopLink,
    survey: bool,
    r: Vec<Action>,
)
    requires
        call_ensures(DesktopLink::step, (link, Event::Poll), r),
        old(link)@.stage == (Stage::Scanning { survey }),
    ensures
        ({
            let serves = (survey && old(link)@.wish.mode == Mode::Survey) || (!survey
                && old(link)@.wish.mode == Mode::Connect);
            &&& acts(r@).len() == 1
            &&& serves ==> acts(r@)[0] is Look && final(link)@ == old(link)@
            &&& !serves ==> acts(r@)[0] is StopScan && final(link)@.stage is Idle
        }),
{
}

/// A scan that was started runs; one that could not be is told of, and the link
/// rests and tries again.
pub proof fn a_started_scan_runs(done: &mut DesktopLink, d: Vec<Action>, survey: bool)
    requires
        call_ensures(DesktopLink::step, (done, Event::Done), d),
        old(done)@.stage == (Stage::ScanCall { survey }),
    ensures
        acts(d@).len() == 0,
        final(done)@ == (State { stage: Stage::Scanning { survey }, ..old(done)@ }),
{
}

/// A scan that could not be started is told of, and the link rests and tries
/// again.
pub proof fn a_failed_scan_is_tried_again(
    link: &mut DesktopLink,
    why: String,
    r: Vec<Action>,
)
    requires
        call_ensures(DesktopLink::step, (link, Event::Failed(why)), r),
        old(link)@.stage is ScanCall,
    ensures
        final(link)@ == (State { stage: Stage::Idle, ..old(link)@ }),
        acts(r@).contains(Act::Connected(false)),
        acts(r@).contains(Act::Status("scan failed: "@ + why@ + "; retrying"@)),
        acts(r@).last() == Act::Rest(2000),
        !acts(r@).contains(Act::Connected(true)),
{
    assert(acts(r@)[0] == Act::Connected(false));
    assert(acts(r@)[1] == Act::Status("scan failed: "@ + why@ + "; retrying"@));
}

/// A device is meant where it has the pinned address, in any case; with none
/// pinned, where it advertises the service or the beacon's name.
pub open spec fn is_meant(advert: Advert, mac: Option<Seq<char>>, beacon_name: Seq<char>) -> bool {
    match mac {
        Some(pin) => same_but_for_case(advert.device.address@, pin),
        None => advert.service || (advert.device.name is Some && advert.device.name->0@
            == beacon_name),
    }
}

proof fn lemma_meant(advert: Advert, mac: Option<Seq<char>>, beacon_name: Seq<char>)
    ensures
        is_match(advert, mac, beacon_name) <==> is_meant(advert, mac, beacon_name),
        is_beacon(advert, beacon_name) <==> is_meant(advert, None, beacon_name),
{
    if mac is Some {
        lemma_alike(advert.device.address@, mac->0);
    }
}

proof fn lemma_first(seen: Seq<Advert>, mac: Option<Seq<char>>, beacon_name: Seq<char>)
    ensures
        match first_match(seen, mac, beacon_name) {
            Some(i) => {
                &&& 0 <= i < seen.len()
                &&& is_meant(seen[i], mac, beacon_name)
                &&& forall|j: int| 0 <= j < i ==> !is_meant(#[trigger] seen[j], mac, beacon_name)
            },
            None => forall|j: int|
                0 <= j < seen.len() ==> !is_meant(#[trigger] seen[j], mac, beacon_name),
        },
    decreases seen.len(),
{
    if seen.len() > 0 {
        let fewer = seen.drop_last();
        lemma_first(fewer, mac, beacon_name);
        lemma_meant(seen.last(), mac, beacon_name);
        match first_match(fewer, mac, beacon_name) {
            Some(i) => {
                assert(fewer[i] == seen[i]);
                assert forall|j: int| 0 <= j < i implies !is_meant(
                    #[trigger] seen[j],
                    mac,
                    beacon_name,
                ) by {
                    assert(fewer[j] == seen[j]);
                }
            },
            None => {
                assert forall|j: int| 0 <= j < seen.len() - 1 implies !is_meant(
                    #[trigger] seen[j],
                    mac,
                    beacon_name,
                ) by {
                    assert(fewer[j] == seen[j]);
                }
            },
        }
    }
}

/// The device that is found is the first that is meant; none is found only where
/// none is meant.
pub proof fn the_first_that_is_meant_is_found(
    seen: Vec<Advert>,
    mac: Option<String>,
    beacon_name: &str,
    r: Option<usize>,
)
    requires
        call_ensures(find_match, (&seen, &mac, beacon_name), r),
    ensures
        r is Some ==> (r->0) < seen@.len() && is_meant(
            seen@[r->0 as int],
            opt_text(mac),
            beacon_name@,
        ),
        forall|j: int|
            0 <= j < (if r is Some {
                r->0 as int
            } else {
                seen@.len() as int
            }) ==> !is_meant(#[trigger] seen@[j], opt_text(mac), beacon_name@),
{
    lemma_first(seen@, opt_text(mac), beacon_name@);
}

/// A scan for one device goes to the first that is meant by the pin that is
/// wanted now, and listens on while there is none.
pub proof fn a_scan_goes_to_the_device_that_is_meant(
    link: &mut DesktopLink,
    seen: Vec<Advert>,
    r: Vec<Action>,
    i: int,
)
    requires
        call_ensures(DesktopLink::step, (link, Event::Seen(seen)), r),
        old(link)@.stage == (Stage::Scanning { survey: false }),
    ensures
        ({
            let s = old(link)@;
            let first = 0 <= i < seen@.len() && is_meant(seen@[i], s.wish.mac, s.beacon_name)
                && forall|j: int|
                0 <= j < i ==> !is_meant(#[trigger] seen@[j], s.wish.mac, s.beacon_name);
            let none = forall|j: int|
                0 <= j < seen@.len() ==> !is_meant(#[trigger] seen@[j], s.wish.mac, s.beacon_name);
            &&& first ==> final(link)@ == (State {
                stage: Stage::Clearing { address: seen@[i].device.address@ },
                ..s
            }) && acts(r@).contains(Act::StopScan) && acts(r@).last() == Act::CheckLink
            &&& none ==> final(link)@ == s && acts(r@) == seq![Act::Rest(500)]
        }),
{
    let s = old(link)@;
    lemma_first(seen@, s.wish.mac, s.beacon_name);
    let found_at = first_match(seen@, s.wish.mac, s.beacon_name);
    if found_at is Some {
        assert(acts(r@)[0] == Act::StopScan);
        assert(is_meant(seen@[found_at->0], s.wish.mac, s.beacon_name));
        if 0 <= i < seen@.len() && is_meant(seen@[i], s.wish.mac, s.beacon_name) && found_at->0
            > i {
            assert(!is_meant(seen@[i], s.wish.mac, s.beacon_name));
        }
    } else if 0 <= i < seen@.len() {
        assert(!is_meant(seen@[i], s.wish.mac, s.beacon_name));
    }
}

proof fn lemma_reported(seen: Seq<Advert>, beacon_name: Seq<char>, i: int, k: int)
    ensures
        0 <= i < seen.len() && is_meant(seen[i], None, beacon_name) ==> reported(
            seen,
            beacon_name,
        ).contains(Act::Discovered(found(seen[i].device))),
        0 <= k < reported(seen, beacon_name).len() ==> exists|j: int|
            0 <= j < seen.len() && is_meant(#[trigger] seen[j], None, beacon_name) && reported(
                seen,
                beacon_name,
            )[k] == Act::Discovered(found(seen[j].device)),
    decreases seen.len(),
{
    if seen.len() > 0 {
        let fewer = seen.drop_last();
        let before = reported(fewer, beacon_name);
        let all = reported(seen, beacon_name);
        lemma_meant(seen.last(), None, beacon_name);
        lemma_reported(fewer, beacon_name, i, k);
        if 0 <= i < seen.len() && is_meant(seen[i], None, beacon_name) {
            let report = Act::Discovered(found(seen[i].device));
            if i < fewer.len() {
                assert(fewer[i] == seen[i]);
                let at = choose|at: int| 0 <= at < before.len() && before[at] == report;
                assert(all[at] == report);
            } else {
                assert(all[all.len() - 1] == report);
            }
        }
        if 0 <= k < all.len() {
            if k < before.len() {
                let j = choose|j: int|
                    0 <= j < fewer.len() && is_meant(#[trigger] fewer[j], None, beacon_name)
                        && before[k] == Act::Discovered(found(fewer[j].device));
                assert(seen[j] == fewer[j]);
            } else {
                assert(is_meant(seen[seen.len() - 1], None, beacon_name));
            }
        }
    }
}

/// Looking around reports every beacon among the devices and nothing but
/// beacons, calls none, and goes on.
pub proof fn looking_around_reports_every_beacon(
    link: &mut DesktopLink,
    seen: Vec<Advert>,
    r: Vec<Action>,
    i: int,
    k: int,
)
    requires
        call_ensures(DesktopLink::step, (link, Event::Seen(seen)), r),
        old(link)@.stage == (Stage::Scanning { survey: true }),
    ensures
        final(link)@ == old(link)@,
        0 <= i < seen@.len() && is_meant(seen@[i], None, old(link)@.beacon_name) ==> acts(
            r@,
        ).contains(Act::Discovered(found(seen@[i].device))),
        0 <= k < acts(r@).len() - 1 ==> exists|j: int|
            0 <= j < seen@.len() && is_meant(#[trigger] seen@[j], None, old(link)@.beacon_name)
                && acts(r@)[k] == Act::Discovered(found(seen@[j].device)),
        acts(r@).last() == Act::Rest(500),
{
    let name = old(link)@.beacon_name;
    lemma_reported(seen@, name, i, k);
    let some = reported(seen@, name);
    if 0 <= i < seen@.len() && is_meant(seen@[i], None, name) {
        let report = Act::Discovered(found(seen@[i].device));
        let at = choose|at: int| 0 <= at < some.len() && some[at] == report;
        assert(acts(r@)[at] == report);
    }
    if 0 <= k < acts(r@).len() - 1 {
        assert(acts(r@)[k] == some[k]);
    }
}

/// The chosen device is called, and only it: after hanging up on what an earlier
/// session left of it, where there is such a thing.
pub proof fn the_chosen_device_is_called(
    link: &mut DesktopLink,
    address: Seq<char>,
    up: bool,
    r: Vec<Action>,
)
    requires
        call_ensures(DesktopLink::step, (link, Event::Linked(up)), r),
        old(link)@.stage == (Stage::Clearing { address }),
    ensures
        final(link)@ == (State { stage: Stage::DialCall { address }, ..old(link)@ }),
        acts(r@).last() == Act::Dial(address),
        acts(r@).contains(Act::Status("connecting to "@ + address + "..."@)),
        up ==> acts(r@).len() == 4 && acts(r@)[0] == Act::HangUp && acts(r@)[1] == Act::Rest(300),
        !up ==> acts(r@).len() == 2 && !acts(r@).contains(Act::HangUp),
{
    assert(acts(r@)[acts(r@).len() - 2] == Act::Status("connecting to "@ + address + "..."@));
}

/// A call that goes through leads on to the services, and those to what the
/// device offers, of the same device all along.
pub proof fn a_call_leads_to_the_offer(
    dialed: &mut DesktopLink,
    found_services: &mut DesktopLink,
    address: Seq<char>,
    d: Vec<Action>,
    f: Vec<Action>,
)
    requires
        call_ensures(DesktopLink::step, (dialed, Event::Done), d),
        call_ensures(DesktopLink::step, (found_services, Event::Done), f),
        old(dialed)@.stage == (Stage::DialCall { address }),
        old(found_services)@.stage == (Stage::DiscoverCall { address }),
    ensures
        final(dialed)@ == (State { stage: Stage::DiscoverCall { address }, ..old(dialed)@ }),
        acts(d@) == seq![Act::DiscoverServices],
        final(found_services)@ == (State {
            stage: Stage::Listing { address },
            ..old(found_services)@
        }),
        acts(f@) == seq![Act::ListOffer],
{
}

/// A device is worth a connection where it offers its position, its acks and its
/// settings to be written; its position is then subscribed to first. One that
/// lacks any of them is hung up on, with a word about the first that is missing.
pub proof fn three_characteristics_are_required(
    link: &mut DesktopLink,
    address: Seq<char>,
    offer: Offer,
    r: Vec<Action>,
)
    requires
        call_ensures(DesktopLink::step, (link, Event::Offered(offer)), r),
        old(link)@.stage == (Stage::Listing { address }),
    ensures
        ({
            let done = acts(r@);
            let enough = offer.position && offer.ack && offer.config;
            &&& enough ==> final(link)@ == (State {
                stage: Stage::SubscribeCall { address, step: 0, offer },
                ..old(link)@
            }) && done == seq![Act::Subscribe(Channel::Position)]
            &&& !enough ==> final(link)@ == (State { stage: Stage::Idle, ..old(link)@ })
                && done.contains(Act::HangUp) && done.contains(Act::Connected(false))
                && done.last() == Act::Rest(2000)
            &&& !offer.position ==> done.contains(
                Act::Status("position characteristic missing"@ + "; retrying"@),
            )
            &&& offer.position && !offer.ack ==> done.contains(
                Act::Status("ack characteristic missing"@ + "; retrying"@),
            )
            &&& offer.position && offer.ack && !offer.config ==> done.contains(
                Act::Status("config characteristic missing"@ + "; retrying"@),
            )
        }),
{
    lemma_broken(old(link)@, "position characteristic missing"@);
    lemma_broken(old(link)@, "ack characteristic missing"@);
    lemma_broken(old(link)@, "config characteristic missing"@);
}

/// The place of a characteristic among the subscriptions.
pub open spec fn place(channel: Channel) -> int {
    match channel {
        Channel::Position => 0,
        Channel::Ack => 1,
        Channel::Telemetry => 2,
        Channel::Log => 3,
        Channel::Settings => 4,
    }
}

/// A characteristic is there to be subscribed to.
pub open spec fn is_offered(offer: Offer, channel: Channel) -> bool {
    match channel {
        Channel::Position => true,
        Channel::Ack => true,
        Channel::Telemetry => offer.telemetry,
        Channel::Log => offer.log,
        Channel::Settings => offer.settings,
    }
}

/// Every characteristic that is offered is subscribed to, in their order and
/// each once: after one comes the next that is offered, and after the last the
/// notifications are opened. The board status is optional, so a failed
/// subscription to it goes on in the same way.
pub proof fn every_offered_channel_is_subscribed_to(
    link: &mut DesktopLink,
    event: Event,
    address: Seq<char>,
    step: u8,
    offer: Offer,
    channel: Channel,
    r: Vec<Action>,
)
    requires
        call_ensures(DesktopLink::step, (link, event), r),
        old(link)@.stage == (Stage::SubscribeCall { address, step, offer }),
        event is Done || (event is Failed && step >= 2),
    ensures
        ({
            let (after, done) = (final(link)@, acts(r@));
            &&& done.len() == 1
            &&& after == (State { stage: after.stage, ..old(link)@ })
            &&& done[0] == Act::Subscribe(channel) ==> {
                &&& place(channel) > step
                &&& is_offered(offer, channel)
                &&& after.stage is SubscribeCall
                &&& after.stage->SubscribeCall_address == address
                &&& after.stage->SubscribeCall_offer == offer
                &&& after.stage->step as int == place(channel)
            }
            &&& is_offered(offer, channel) && place(channel) > step ==> done[0] is Subscribe
                && place(done[0]->Subscribe_0) <= place(channel)
            &&& done[0] is Subscribe || (done[0] is OpenStream && after.stage == (
            Stage::StreamCall { address, offer }))
        }),
{
}

/// A required subscription that fails, a call or a discovery that fails, and
/// notifications that cannot be opened each end the session: the device is hung
/// up on, the UI reads what failed and why, and the link rests before it starts
/// over.
pub proof fn a_failure_ends_the_session(
    link: &mut DesktopLink,
    why: String,
    r: Vec<Action>,
)
    requires
        call_ensures(DesktopLink::step, (link, Event::Failed(why)), r),
        old(link)@.stage is DialCall || old(link)@.stage is DiscoverCall
            || old(link)@.stage is StreamCall || (old(link)@.stage is SubscribeCall
            && old(link)@.stage->step < 2),
    ensures
        ({
            let (s, done) = (old(link)@, acts(r@));
            let what = if s.stage is DialCall {
                "connect failed: "@
            } else if s.stage is DiscoverCall {
                "discovery failed: "@
            } else if s.stage is StreamCall {
                "notification stream failed: "@
            } else {
                "subscribe failed: "@
            };
            &&& final(link)@ == (State { stage: Stage::Idle, ..s })
            &&& done.contains(Act::HangUp)
            &&& done.contains(Act::Connected(false))
            &&& done.contains(Act::Status(what + why@ + "; retrying"@))
            &&& done.last() == Act::Rest(2000)
        }),
{
    lemma_broken(old(link)@, "connect failed: "@ + why@);
    lemma_broken(old(link)@, "discovery failed: "@ + why@);
    lemma_broken(old(link)@, "notification stream failed: "@ + why@);
    lemma_broken(old(link)@, "subscribe failed: "@ + why@);
}

/// Once the notifications are open the UI is told that there is a connection and
/// to which device, the settings are read where they are offered, and then all
/// that waited to be written is sent, in its order.
pub proof fn a_connection_starts_with_what_waited(
    link: &mut DesktopLink,
    address: Seq<char>,
    offer: Offer,
    r: Vec<Action>,
)
    requires
        call_ensures(DesktopLink::step, (link, Event::Done), r),
        old(link)@.stage == (Stage::StreamCall { address, offer }),
    ensures
        ({
            let (s, after, done) = (old(link)@, final(link)@, acts(r@));
            let first: int = if offer.settings {
                3
            } else {
                2
            };
            &&& after.stage == (Stage::Pump { quiet: 0 })
            &&& after.wish.writes.len() == 0
            &&& done.len() == first + s.wish.writes.len()
            &&& done[0] == Act::Connected(true)
            &&& done[1] == Act::Status("connected to "@ + address)
            &&& offer.settings ==> done[2] == Act::ReadSettings
            &&& forall|i: int|
                0 <= i < s.wish.writes.len() ==> done[first + i] == Act::Write(
                    #[trigger] s.wish.writes[i],
                )
        }),
{
    let s = old(link)@;
    let all = greeting(address, offer.settings) + written(s.wish.writes);
    assert(acts(r@) == all);
    assert forall|i: int| 0 <= i < s.wish.writes.len() implies all[greeting(
        address,
        offer.settings,
    ).len() + i] == Act::Write(#[trigger] s.wish.writes[i]) by {}
}

/// A notification is decoded as what its address names, and one that names
/// nothing known is passed over; the connection goes on.
pub proof fn a_notification_is_decoded(
    link: &mut DesktopLink,
    uuid: String,
    named: &str,
    channel: Option<Channel>,
    r: Vec<Action>,
)
    requires
        call_ensures(DesktopLink::step, (link, Event::Notify(uuid)), r),
        call_ensures(crate::link::Uuids::channel, (&old(link).uuids, named), channel),
        named@ == uuid@,
        old(link)@.stage is Pump,
    ensures
        final(link)@ == old(link)@,
        channel is Some ==> acts(r@) == seq![Act::Decode(channel->0)],
        channel is None ==> acts(r@).len() == 0,
{
}

/// A write that fails is told of and does not end the connection.
pub proof fn a_failed_write_keeps_the_connection(
    link: &mut DesktopLink,
    why: String,
    r: Vec<Action>,
)
    requires
        call_ensures(DesktopLink::step, (link, Event::Failed(why)), r),
        old(link)@.stage is Pump,
    ensures
        final(link)@ == old(link)@,
        acts(r@) == seq![Act::Status("config write failed: "@ + why@)],
{
}

/// A connection whose notifications end is lost.
pub proof fn ended_notifications_are_a_lost_connection(link: &mut DesktopLink, r: Vec<Action>)
    requires
        call_ensures(DesktopLink::step, (link, Event::Ended), r),
        old(link)@.stage is Pump,
    ensures
        final(link)@ == (State { stage: Stage::Idle, ..old(link)@ }),
        acts(r@).contains(Act::HangUp),
        acts(r@).contains(Act::Connected(false)),
        acts(r@).contains(Act::Status("connection lost"@ + "; retrying"@)),
        acts(r@).last() == Act::Rest(2000),
{
    lemma_broken(old(link)@, "connection lost"@);
}

/// The eighth quiet spell in a row makes the link be checked, and none before
/// it does.
pub proof fn the_eighth_quiet_spell_checks_the_link(
    link: &mut DesktopLink,
    quiet: u32,
    r: Vec<Action>,
)
    requires
        call_ensures(DesktopLink::step, (link, Event::Quiet), r),
        old(link)@.stage == (Stage::Pump { quiet }),
    ensures
        quiet + 1 < 8 ==> acts(r@).len() == 0 && final(link)@.stage is Pump
            && final(link)@.stage->quiet
            == quiet + 1,
        quiet + 1 >= 8 ==> acts(r@) == seq![Act::CheckLink] && final(link)@.stage is Checking,
        final(link)@ == (State { stage: final(link)@.stage, ..old(link)@ }),
{
}

/// A link that is found to be up is pumped on from a fresh count; one that is
/// down is lost.
pub proof fn a_check_tells_whether_the_link_is_up(
    link: &mut DesktopLink,
    up: bool,
    r: Vec<Action>,
)
    requires
        call_ensures(DesktopLink::step, (link, Event::Linked(up)), r),
        old(link)@.stage is Checking,
    ensures
        up ==> acts(r@).len() == 0 && final(link)@ == (State {
            stage: Stage::Pump { quiet: 0 },
            ..old(link)@
        }),
        !up ==> final(link)@ == (State { stage: Stage::Idle, ..old(link)@ }) && acts(r@).contains(
            Act::HangUp,
        ) && acts(r@).contains(Act::Connected(false)) && acts(r@).contains(
            Act::Status("connection lost"@ + "; retrying"@),
        ) && acts(r@).last() == Act::Rest(2000),
{
    lemma_broken(old(link)@, "connection lost"@);
}

/// What nothing waits for changes nothing and makes nothing be done.
pub proof fn what_nothing_waits_for_is_passed_over(
    link: &mut DesktopLink,
    event: Event,
    r: Vec<Action>,
)
    requires
        call_ensures(DesktopLink::step, (link, event), r),
        ({
            let stage = old(link)@.stage;
            match event {
                Event::Poll => !(stage is Idle) && !(stage is Scanning) && !(stage is Pump),
                Event::Adapter(_) => !(stage is AdapterCall),
                Event::Done => !(stage is ScanCall) && !(stage is DialCall) && !(
                stage is DiscoverCall) && !(stage is SubscribeCall) && !(stage is StreamCall),
                Event::Failed(_) => stage is Idle || stage is AdapterCall || stage is Scanning
                    || stage is Clearing || stage is Listing || stage is Checking,
                Event::Seen(_) => !(stage is Scanning),
                Event::Linked(_) => !(stage is Clearing) && !(stage is Checking),
                Event::Offered(_) => !(stage is Listing),
                _ => !(stage is Pump),
            }
        }),
    ensures
        final(link)@ == old(link)@,
        acts(r@).len() == 0,
{
}

} // verus!
