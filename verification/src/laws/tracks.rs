//! Tracks and markers: what a fix, a packet and an entry by hand leave behind.

use crate::app::pages::is_on_globe;
use crate::app::{far_enough, MyApp, Reading};
use crate::ble::{BleEvent, Position, PositionPacket};
use crate::gps::GpsFix;
use crate::points::{PointSource, TrackPoint};
use crate::reals::no_less;
use vstd::prelude::*;

verus! {

/// A distance as a bit pattern: zero, or a number above it. The patterns of such
/// numbers are in the order of the numbers.
pub open spec fn is_distance_pattern(bits: u64) -> bool {
    bits <= 0x7ff0_0000_0000_0000
}

/// The first position of a track is always far enough; a later one is where it
/// is at least the least distance away.
pub proof fn far_enough_is_the_least_distance_or_more(
    track: Vec<TrackPoint>,
    moved: u64,
    least: u64,
    r: bool,
    more: bool,
)
    requires
        call_ensures(far_enough, (&track, moved, least), r),
        call_ensures(no_less, (moved, least), more),
    ensures
        track@.len() == 0 ==> r,
        track@.len() > 0 ==> (r <==> more),
        track@.len() > 0 && is_distance_pattern(moved) && is_distance_pattern(least) ==> (r
            <==> moved >= least),
{
}

/// A fix of the phone moves the marker to where the fix is and stamps it with the
/// reading's time. The track keeps all that it held, and a reading that is the
/// first, or the least distance or more away from the last, is added at its end
/// with all that the reading says: its position, text and time, as the phone's
/// own. Nothing of the beacon, the link or the settings changes.
pub proof fn a_fix_is_recorded_as_it_was_read(app: &mut MyApp, fix: GpsFix, reading: Reading)
    requires
        call_ensures(MyApp::apply_gps_fix, (app, fix, reading), ()),
    ensures
        final(app).current == Some(fix.pos),
        final(app).current_time == Some(reading.time),
        final(app).heading == fix.bearing,
        final(app).track@ != old(app).track@ ==> {
            let point = final(app).track@.last();
            &&& final(app).track@.len() == old(app).track@.len() + 1
            &&& point.pos == fix.pos
            &&& point.coords == reading.coords
            &&& point.time == reading.time
            &&& point.source == PointSource::Phone
        },
        forall|i: int|
            0 <= i < old(app).track@.len()
                ==> #[trigger] final(app).track@[i] == old(app).track@[i],
        old(app).track@.len() == 0 ==> final(app).track@.len() == 1,
        old(app).track@.len() > 0 && is_distance_pattern(reading.moved) && is_distance_pattern(
            old(app).config.track.min_distance,
        ) ==> (final(app).track@.len() == old(app).track@.len() + 1
            <==> reading.moved >= old(app).config.track.min_distance),
        final(app).track@.len() >= old(app).track@.len(),
        *final(app) == (MyApp {
            current: final(app).current,
            current_time: final(app).current_time,
            heading: final(app).heading,
            track: final(app).track,
            ..*old(app)
        }),
{
}

/// A packet of the beacon with a fix moves the beacon's marker and is recorded on
/// the beacon's track as it was read: position, text and time, as the beacon's.
/// One without a fix is kept as the last packet, and neither the marker, its time
/// nor the track says otherwise than before. The phone's are left alone by both.
pub proof fn a_packet_is_recorded_as_it_was_read(
    app: &mut MyApp,
    packet: PositionPacket,
    reading: Reading,
    now: u64,
)
    requires
        call_ensures(MyApp::take_ble_event, (app, BleEvent::Fix(packet), reading, now), ()),
    ensures
        final(app).beacon_packet == Some(packet),
        packet.fix ==> final(app).beacon == Some(packet.pos) && final(app).beacon_time == Some(
            reading.time,
        ),
        !packet.fix ==> final(app).beacon == old(app).beacon
            && final(app).beacon_time == old(app).beacon_time
            && final(app).beacon_track@ == old(app).beacon_track@,
        final(app).beacon_track@ != old(app).beacon_track@ ==> {
            let point = final(app).beacon_track@.last();
            &&& final(app).beacon_track@.len() == old(app).beacon_track@.len() + 1
            &&& point.pos == packet.pos
            &&& point.coords == reading.coords
            &&& point.time == reading.time
            &&& point.source == PointSource::Esp
        },
        forall|i: int|
            0 <= i < old(app).beacon_track@.len()
                ==> #[trigger] final(app).beacon_track@[i] == old(app).beacon_track@[i],
        packet.fix && old(app).beacon_track@.len() == 0 ==> final(app).beacon_track@.len() == 1,
        packet.fix && old(app).beacon_track@.len() > 0 && is_distance_pattern(reading.moved)
            && is_distance_pattern(old(app).config.track.min_distance)
                ==> (final(app).beacon_track@.len() == old(app).beacon_track@.len() + 1
                <==> reading.moved >= old(app).config.track.min_distance),
        *final(app) == (MyApp {
            beacon: final(app).beacon,
            beacon_time: final(app).beacon_time,
            beacon_packet: final(app).beacon_packet,
            beacon_track: final(app).beacon_track,
            ..*old(app)
        }),
{
}

/// A position is on the globe where its latitude is no farther than 90 degrees
/// and its longitude no farther than 180 degrees from zero, either way.
pub proof fn the_globe_ends_at_the_poles(pos: Position, r: bool)
    requires
        call_ensures(is_on_globe, (pos,), r),
    ensures
        r <==> pos.lat as int % 0x8000_0000_0000_0000 <= 0x4056_8000_0000_0000 && pos.lon as int
            % 0x8000_0000_0000_0000 <= 0x4066_8000_0000_0000,
{
}

/// A position entered by hand is taken where it is on the globe, and then counts
/// like a fix without a bearing; any other entry is marked as bad and moves
/// nothing.
pub proof fn an_entry_counts_like_a_fix(
    app: &mut MyApp,
    entered: Option<Position>,
    reading: Reading,
    r: bool,
)
    requires
        call_ensures(MyApp::enter_position, (app, entered, reading), r),
    ensures
        r <==> entered is Some && entered->0.lat as int % 0x8000_0000_0000_0000
            <= 0x4056_8000_0000_0000 && entered->0.lon as int % 0x8000_0000_0000_0000
            <= 0x4066_8000_0000_0000,
        final(app).manual_gps_bad == !r,
        r ==> final(app).current == entered && final(app).current_time == Some(reading.time)
            && final(app).heading is None,
        !r ==> final(app).current == old(app).current
            && final(app).current_time == old(app).current_time
            && final(app).heading == old(app).heading && final(app).track == old(app).track,
        final(app).track@ != old(app).track@ ==> {
            let point = final(app).track@.last();
            &&& final(app).track@.len() == old(app).track@.len() + 1
            &&& point.pos == entered->0
            &&& point.coords == reading.coords
            &&& point.time == reading.time
            &&& point.source == PointSource::Phone
        },
        forall|i: int|
            0 <= i < old(app).track@.len()
                ==> #[trigger] final(app).track@[i] == old(app).track@[i],
        r && old(app).track@.len() == 0 ==> final(app).track@.len() == 1,
        r && old(app).track@.len() > 0 && is_distance_pattern(reading.moved)
            && is_distance_pattern(old(app).config.track.min_distance) ==> (final(app).track@.len()
            == old(app).track@.len() + 1 <==> reading.moved >= old(app).config.track.min_distance),
        *final(app) == (MyApp {
            manual_gps_bad: final(app).manual_gps_bad,
            current: final(app).current,
            current_time: final(app).current_time,
            heading: final(app).heading,
            track: final(app).track,
            ..*old(app)
        }),
{
}

/// Clearing the tracks forgets every recorded point, and nothing else: the
/// markers stay where they are.
pub proof fn clearing_forgets_points_only(app: &mut MyApp)
    requires
        call_ensures(MyApp::clear_tracks, (app,), ()),
    ensures
        final(app).track@ == Seq::<TrackPoint>::empty(),
        final(app).beacon_track@ == Seq::<TrackPoint>::empty(),
        *final(app) == (MyApp {
            track: final(app).track,
            beacon_track: final(app).beacon_track,
            ..*old(app)
        }),
{
}

/// A track grows by a reading exactly where the position is far enough from the
/// last recorded one, whatever numbers the two distances are.
pub proof fn a_track_grows_where_it_is_far_enough(
    fixed: &mut MyApp,
    fix: GpsFix,
    heard: &mut MyApp,
    packet: PositionPacket,
    now: u64,
    entered: &mut MyApp,
    pos: Position,
    taken: bool,
    reading: Reading,
    a: bool,
    b: bool,
    c: bool,
)
    requires
        call_ensures(MyApp::apply_gps_fix, (fixed, fix, reading), ()),
        call_ensures(
            far_enough,
            (&old(fixed).track, reading.moved, old(fixed).config.track.min_distance),
            a,
        ),
        call_ensures(MyApp::take_ble_event, (heard, BleEvent::Fix(packet), reading, now), ()),
        call_ensures(
            far_enough,
            (&old(heard).beacon_track, reading.moved, old(heard).config.track.min_distance),
            b,
        ),
        call_ensures(MyApp::enter_position, (entered, Some(pos), reading), taken),
        call_ensures(
            far_enough,
            (&old(entered).track, reading.moved, old(entered).config.track.min_distance),
            c,
        ),
    ensures
        final(fixed).track@.len() == old(fixed).track@.len() + if a {
            1int
        } else {
            0
        },
        final(heard).beacon_track@.len() == old(heard).beacon_track@.len() + if packet.fix && b {
            1int
        } else {
            0
        },
        final(entered).track@.len() == old(entered).track@.len() + if taken && c {
            1int
        } else {
            0
        },
{
}

} // verus!
