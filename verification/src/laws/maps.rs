//! The map page: markers, centering, orientation, tracking and the selection of
//! a region.

use crate::app::map::{offline_zoom, Centering, Popup, Progress};
use crate::app::{MarkerKind, MyApp, Page, RegionSelect, Spot};
use crate::ble::Position;
use crate::points::{age_text, Timestamp};
use crate::reals::no_less_single;
use crate::text::decimal;
use crate::tiles::MapLayer;
use vstd::prelude::*;

verus! {

/// A distance on the screen as a bit pattern: zero, or a number above it. The
/// patterns of such numbers are in the order of the numbers.
pub open spec fn is_screen_distance(bits: u32) -> bool {
    bits <= 0x7f80_0000
}

/// A double-click selects the marker that was meant: one that is there and no
/// more than 40 points away, of two such the closer one, and of two equally close
/// ones yours. Where no marker is that close nothing is selected. Nothing but the
/// selection changes.
pub proof fn the_closest_marker_is_picked(app: &mut MyApp, to_you: u32, to_beacon: u32)
    requires
        call_ensures(MyApp::pick_marker, (app, to_you, to_beacon), ()),
        is_screen_distance(to_you),
        is_screen_distance(to_beacon),
    ensures
        ({
            let you = old(app).current is Some && to_you <= 0x4220_0000;
            let beacon = old(app).beacon is Some && to_beacon <= 0x4220_0000;
            let picked = final(app).selected_marker;
            &&& picked == Some(MarkerKind::You) ==> you && !(beacon && to_beacon < to_you)
            &&& picked == Some(MarkerKind::Beacon) ==> beacon && !(you && to_you <= to_beacon)
            &&& picked is None <==> !you && !beacon
        }),
        *final(app) == (MyApp { selected_marker: final(app).selected_marker, ..*old(app) }),
{
}

/// What is no distance at all selects no marker, and a marker that is not there
/// is never selected.
pub proof fn only_a_distance_hits(app: &mut MyApp, to_you: u32, to_beacon: u32)
    requires
        call_ensures(MyApp::pick_marker, (app, to_you, to_beacon), ()),
    ensures
        final(app).selected_marker == Some(MarkerKind::You) ==> old(app).current is Some
            && to_you as int % 0x8000_0000 <= 0x7f80_0000,
        final(app).selected_marker == Some(MarkerKind::Beacon) ==> old(app).beacon is Some
            && to_beacon as int % 0x8000_0000 <= 0x7f80_0000,
        old(app).current is Some && old(app).beacon is None && to_you <= 0x4220_0000
            ==> final(app).selected_marker == Some(MarkerKind::You),
        old(app).beacon is Some && old(app).current is None && to_beacon <= 0x4220_0000
            ==> final(app).selected_marker == Some(MarkerKind::Beacon),
{
}

/// The popup is that of the selected marker: it shows where that marker is now
/// and how long ago it was updated. A selected marker that is gone has none, and
/// is no longer selected.
pub proof fn a_popup_follows_its_marker(app: &mut MyApp, now: Timestamp, r: Option<Popup>)
    requires
        call_ensures(MyApp::marker_popup, (app, now), r),
    ensures
        r is Some ==> old(app).selected_marker == Some(r->0.kind) && final(app).selected_marker
            == old(app).selected_marker,
        r is Some && r->0.kind == MarkerKind::You ==> old(app).current == Some(r->0.pos),
        r is Some && r->0.kind == MarkerKind::Beacon ==> old(app).beacon == Some(r->0.pos),
        old(app).selected_marker == Some(MarkerKind::You) ==> (r is Some
            <==> old(app).current is Some),
        old(app).selected_marker == Some(MarkerKind::Beacon) ==> (r is Some
            <==> old(app).beacon is Some),
        r is None ==> final(app).selected_marker is None,
        *final(app) == (MyApp { selected_marker: final(app).selected_marker, ..*old(app) }),
{
}

/// The popup says how long ago its marker was updated, in the words of the
/// points list, or that it never was.
pub proof fn a_popup_tells_its_markers_age(
    app: &mut MyApp,
    now: Timestamp,
    r: Option<Popup>,
    then: Timestamp,
    age: String,
)
    requires
        call_ensures(MyApp::marker_popup, (app, now), r),
        call_ensures(age_text, (now, then), age),
        r is Some,
    ensures
        r->0.kind == MarkerKind::You && old(app).current_time == Some(then) ==> r->0.age@
            == "Updated "@ + age@ + " ago"@,
        r->0.kind == MarkerKind::Beacon && old(app).beacon_time == Some(then) ==> r->0.age@
            == "Updated "@ + age@ + " ago"@,
        r->0.kind == MarkerKind::You && old(app).current_time is None ==> r->0.age@
            == "No update yet"@,
        r->0.kind == MarkerKind::Beacon && old(app).beacon_time is None ==> r->0.age@
            == "No update yet"@,
{
}

/// A tap on the center button goes to you and follows you; with no position of
/// yours it goes to the beacon and stays there; with neither it does nothing. It
/// leaves tracking mode, which would undo it, and changes nothing else.
pub proof fn a_tap_centers_on_you_first(app: &mut MyApp, r: Option<Centering>)
    requires
        call_ensures(MyApp::center_tap, (app,), r),
    ensures
        r is Some <==> old(app).current is Some || old(app).beacon is Some,
        old(app).current is Some ==> r is Some && old(app).current == Some(r->0.target)
            && r->0.follow,
        old(app).current is None && old(app).beacon is Some ==> r is Some && old(app).beacon
            == Some(r->0.target) && !r->0.follow,
        r is Some ==> r->0.probe == old(app).cached && final(app).tracking_beacon is None,
        r is None ==> *final(app) == *old(app),
        *final(app) == (MyApp { tracking_beacon: final(app).tracking_beacon, ..*old(app) }),
{
}

/// The center menu lists you, where your position is known, and then the beacon,
/// where its is, each where it is.
pub proof fn the_menu_lists_what_is_there(app: MyApp, r: Vec<(MarkerKind, Position)>)
    requires
        call_ensures(MyApp::center_targets, (&app,), r),
    ensures
        forall|i: int|
            0 <= i < r@.len() ==> {
                &&& (#[trigger] r@[i]).0 == MarkerKind::You ==> i == 0 && app.current == Some(
                    r@[i].1,
                )
                &&& r@[i].0 == MarkerKind::Beacon ==> i + 1 == r@.len() && app.beacon == Some(
                    r@[i].1,
                )
            },
        app.current is Some ==> r@.contains((MarkerKind::You, app.current->0)),
        app.beacon is Some ==> r@.contains((MarkerKind::Beacon, app.beacon->0)),
{
    if app.current is Some {
        assert(r@[0] == (MarkerKind::You, app.current->0));
    }
    if app.beacon is Some {
        assert(r@[r@.len() - 1] == (MarkerKind::Beacon, app.beacon->0));
    }
}

/// Picking an entry of the center menu goes where the menu says that marker is,
/// following only you, and closes the menu, as a pick beside the list does.
pub proof fn a_pick_goes_where_the_menu_says(
    app: &mut MyApp,
    i: usize,
    menu: Vec<(MarkerKind, Position)>,
    r: Option<Centering>,
)
    requires
        call_ensures(MyApp::center_targets, (&*app,), menu),
        call_ensures(MyApp::center_pick, (app, i), r),
    ensures
        r is Some <==> i < menu@.len(),
        r is Some ==> r->0.target == menu@[i as int].1 && (r->0.follow <==> menu@[i as int].0
            == MarkerKind::You) && r->0.probe == old(app).cached
                && final(app).tracking_beacon is None,
        r is None ==> final(app).tracking_beacon == old(app).tracking_beacon,
        !final(app).center_menu,
        *final(app) == (MyApp {
            tracking_beacon: final(app).tracking_beacon,
            center_menu: false,
            ..*old(app)
        }),
{
}

/// Centering goes to the very place that was asked for, leaves tracking mode and
/// looks for cached tiles only where there is a cache.
pub proof fn centering_goes_to_the_target(
    app: &mut MyApp,
    target: Position,
    follow: bool,
    r: Centering,
)
    requires
        call_ensures(MyApp::center_on, (app, target, follow), r),
    ensures
        r.target == target,
        r.follow == follow,
        r.probe == old(app).cached,
        final(app).tracking_beacon is None,
        *final(app) == (MyApp {
            tracking_beacon: final(app).tracking_beacon,
            ..*old(app)
        }),
{
}

/// Tracking mode can walk to a beacon that has a position, and to no other.
pub proof fn a_placed_beacon_can_be_tracked(app: MyApp, r: Vec<Position>)
    requires
        call_ensures(MyApp::beacon_positions, (&app,), r),
    ensures
        app.beacon is None ==> r@.len() == 0,
        app.beacon is Some ==> r@.len() == 1 && r@[0] == app.beacon->0,
{
}

/// A reading of the compass wins over the course over ground, which stands in
/// while there is none.
pub proof fn the_compass_wins(app: MyApp, r: Option<u32>)
    requires
        call_ensures(MyApp::effective_heading, (&app,), r),
    ensures
        app.compass_heading is Some ==> r == app.compass_heading,
        app.compass_heading is None ==> r == app.heading,
{
}

/// The heading button is offered exactly while a direction is known or a compass
/// could give one, and tracking does not own the map's orientation.
pub proof fn the_heading_button_needs_a_direction(app: MyApp, direction: bool, shown: bool)
    requires
        call_ensures(MyApp::has_direction, (&app,), direction),
        call_ensures(MyApp::shows_heading_button, (&app,), shown),
    ensures
        direction <==> app.compass_heading is Some || app.heading is Some || app.compass is Some,
        shown <==> direction && app.tracking_beacon is None,
{
}

/// A press of the heading button turns heading-up over where the button is
/// shown, and does nothing where it is not; it is named for what it switches to.
pub proof fn the_heading_button_toggles(app: &mut MyApp, shown: bool, hint: &str)
    requires
        call_ensures(MyApp::shows_heading_button, (&*app,), shown),
        call_ensures(MyApp::heading_hint, (&*app,), hint),
        call_ensures(MyApp::press_heading, (app,), ()),
    ensures
        shown ==> final(app).heading_up == !old(app).heading_up,
        !shown ==> final(app).heading_up == old(app).heading_up,
        old(app).heading_up ==> hint@ == "North up"@,
        !old(app).heading_up ==> hint@ == "Heading up"@,
        *final(app) == (MyApp { heading_up: final(app).heading_up, ..*old(app) }),
{
}

/// Heading-up lasts as long as a direction can be had, and no longer.
pub proof fn heading_up_ends_with_the_direction(app: &mut MyApp)
    requires
        call_ensures(MyApp::settle_heading, (app,), ()),
    ensures
        ({
            let direction = old(app).compass_heading is Some || old(app).heading is Some
                || old(app).compass is Some;
            &&& direction ==> *final(app) == *old(app)
            &&& !direction ==> !final(app).heading_up
            &&& *final(app) == (MyApp { heading_up: final(app).heading_up, ..*old(app) })
        }),
{
}

/// The compass is powered exactly while heading-up wants it. When it is switched
/// off its last reading goes too, as nothing updates it any more; while it stays
/// on, or stays off, the reading is left as it is.
pub proof fn the_compass_is_on_for_heading_up_only(app: &mut MyApp, r: Option<bool>)
    requires
        call_ensures(MyApp::sync_compass_power, (app,), r),
    ensures
        r is Some <==> old(app).compass is Some,
        r is Some ==> r->0 == old(app).heading_up && final(app).compass == r,
        r is None ==> *final(app) == *old(app),
        old(app).compass == Some(true) && !old(app).heading_up
            ==> final(app).compass_heading is None,
        old(app).compass == Some(false) || old(app).heading_up ==> final(app).compass_heading
            == old(app).compass_heading,
        *final(app) == (MyApp {
            compass: final(app).compass,
            compass_heading: final(app).compass_heading,
            ..*old(app)
        }),
{
}

/// A compass that is gone takes the heading-up mode with it, unless a heading is
/// known without it.
pub proof fn a_lost_compass_offers_nothing(app: &mut MyApp)
    requires
        call_ensures(MyApp::compass_gone, (app,), ()),
    ensures
        final(app).compass is None,
        *final(app) == (MyApp {
            compass: final(app).compass,
            ..*old(app)
        }),
        !final(app).can_turn() <==> old(app).compass_heading is None && old(app).heading is None,
{
}

/// A heading that the compass gives is the one the map turns to.
pub proof fn a_compass_reading_is_used(app: &mut MyApp, heading: u32)
    requires
        call_ensures(MyApp::take_heading, (app, heading), ()),
    ensures
        final(app).compass_heading == Some(heading),
        final(app).best_heading() == Some(heading),
        *final(app) == (MyApp {
            compass_heading: final(app).compass_heading,
            ..*old(app)
        }),
{
}

/// Tracking needs both ends, and the button does nothing without them. From
/// outside the mode a press enters it on the first beacon, north-up again; from
/// the one beacon that there is a press leaves it. Nothing else changes.
pub proof fn the_track_button_needs_both_ends(app: &mut MyApp, able: bool, hint: &str)
    requires
        call_ensures(MyApp::can_track, (&*app,), able),
        call_ensures(MyApp::track_hint, (&*app,), hint),
        call_ensures(MyApp::press_track, (app,), ()),
    ensures
        able <==> old(app).current is Some && old(app).beacon is Some,
        !able ==> *final(app) == *old(app),
        able && old(app).tracking_beacon is None ==> final(app).tracking_beacon == Some(0usize)
            && !final(app).heading_up && hint@ == "Track beacon"@,
        able && old(app).tracking_beacon is Some ==> final(app).tracking_beacon is None && hint@
            == "Exit tracking"@ && final(app).heading_up == old(app).heading_up,
        *final(app) == (MyApp {
            tracking_beacon: final(app).tracking_beacon,
            heading_up: final(app).heading_up,
            ..*old(app)
        }),
{
}

/// Tracking frames you and the tracked beacon, each where it is now. Once either
/// is gone, or the tracked beacon is one that is not there, the mode is left so
/// that the map is free again.
pub proof fn tracking_frames_both_ends(app: &mut MyApp, r: Option<(Position, Position)>)
    requires
        call_ensures(MyApp::tracking_pair, (app,), r),
    ensures
        r is Some <==> old(app).tracking_beacon == Some(0usize) && old(app).current is Some
            && old(app).beacon is Some,
        r is Some ==> old(app).current == Some((r->0).0) && old(app).beacon == Some((r->0).1)
            && *final(app) == *old(app),
        r is None ==> final(app).tracking_beacon is None,
        *final(app) == (MyApp { tracking_beacon: final(app).tracking_beacon, ..*old(app) }),
{
}

/// The bearing of the tracked beacon turns the map wherever there is one.
/// Without it the map is turned only in heading-up, to the best heading, and not
/// while a region is selected.
pub proof fn tracking_turns_the_map_first(app: MyApp, bearing: Option<u32>, r: Option<u32>)
    requires
        call_ensures(MyApp::target_heading, (&app, bearing), r),
    ensures
        bearing is Some ==> r == bearing,
        bearing is None && !app.heading_up ==> r is None,
        bearing is None && app.select != RegionSelect::Inactive ==> r is None,
        bearing is None && app.heading_up && app.select == RegionSelect::Inactive
            && app.compass_heading is Some ==> r == app.compass_heading,
        bearing is None && app.heading_up && app.select == RegionSelect::Inactive
            && app.compass_heading is None ==> r == app.heading,
{
}

/// The map follows you in heading-up, and neither without a position of yours
/// nor while tracking frames it.
pub proof fn heading_up_follows_you(app: MyApp, tracking: bool, r: bool)
    requires
        call_ensures(MyApp::follows_position, (&app, tracking), r),
    ensures
        r <==> app.heading_up && app.current is Some && !tracking,
{
}

/// Tracking locks the map against zooming and panning by hand. Nothing else
/// locks the zoom; panning is also off while two fingers pinch, while a box is
/// drawn, and on a phone whose map is turned.
pub proof fn tracking_locks_the_map(
    app: MyApp,
    turned: bool,
    mobile: bool,
    pinching: bool,
    zoom: bool,
    pan: bool,
)
    requires
        call_ensures(MyApp::allows_zoom, (&app,), zoom),
        call_ensures(MyApp::allows_pan, (&app, turned, mobile, pinching), pan),
    ensures
        zoom <==> app.tracking_beacon is None,
        pan ==> zoom,
        pan ==> !pinching,
        pan ==> !(app.select is Picking),
        pan && mobile ==> !turned,
        zoom && !pinching && !(app.select is Picking) && !turned ==> pan,
        zoom && !pinching && !(app.select is Picking) && !mobile ==> pan,
{
}

/// The beacon's path is drawn whole or, where it is hidden, not at all.
pub proof fn a_path_is_drawn_whole_or_not_at_all(app: MyApp, r: usize)
    requires
        call_ensures(MyApp::beacon_path_len, (&app,), r),
    ensures
        app.config.ble.show_path ==> r == app.beacon_track@.len(),
        !app.config.ble.show_path ==> r == 0,
{
}

/// The distance is shown between you and the beacon: where it is wanted and both
/// are there.
pub proof fn the_distance_is_between_you_and_the_beacon(
    app: MyApp,
    r: Option<(Position, Position)>,
)
    requires
        call_ensures(MyApp::distance_ends, (&app,), r),
    ensures
        r is Some <==> app.config.distance.show && app.current is Some && app.beacon is Some,
        r is Some ==> app.current == Some((r->0).0) && app.beacon == Some((r->0).1),
{
}

/// The layer button goes to the layer that it names, which is the other one.
pub proof fn the_layer_button_goes_where_it_says(app: &mut MyApp, hint: &str)
    requires
        call_ensures(MyApp::layer_hint, (&*app,), hint),
        call_ensures(MyApp::press_layer, (app,), ()),
    ensures
        final(app).layer != old(app).layer,
        final(app).layer == MapLayer::Topo ==> hint@ == "Topographic map"@,
        final(app).layer == MapLayer::Standard ==> hint@ == "Standard map"@,
        *final(app) == (MyApp { layer: final(app).layer, ..*old(app) }),
{
}

/// Offline, the map stays at its zoom where that has a tile, and otherwise goes
/// to one that has: none is fewer steps away, and of two as near the wider one is
/// taken.
pub proof fn offline_goes_to_the_nearest_zoom(current: u8, there: Vec<u8>, r: Option<u8>, other: u8)
    requires
        call_ensures(offline_zoom, (current, &there), r),
        there@.contains(other),
    ensures
        r is None <==> there@.contains(current),
        r is Some ==> there@.contains(r->0),
        r is Some ==> {
            let step = if r->0 > current {
                r->0 - current
            } else {
                current - r->0
            };
            let farther = if other > current {
                other - current
            } else {
                current - other
            };
            step <= farther && (step == farther ==> r->0 <= other)
        },
{
    let i = choose|i: int| 0 <= i < there@.len() && there@[i] == other;
    assert(there@[i] == other);
}

/// With no tile anywhere the map stays as it is.
pub proof fn offline_without_tiles_stays(current: u8, there: Vec<u8>, r: Option<u8>)
    requires
        call_ensures(offline_zoom, (current, &there), r),
        there@.len() == 0,
    ensures
        r is None,
{
}

/// A region can be picked where tiles are kept, one download at a time: the map
/// is shown, and the picking starts afresh.
pub proof fn picking_starts_afresh(app: &mut MyApp)
    requires
        call_ensures(MyApp::start_region, (app,), ()),
    ensures
        old(app).cached && !old(app).downloading ==> final(app).page == Page::MapView
            && final(app).select == (RegionSelect::Picking { start: None, current: None }),
        !old(app).cached || old(app).downloading ==> *final(app) == *old(app),
        *final(app) == (MyApp {
            page: final(app).page,
            select: final(app).select,
            ..*old(app)
        }),
{
}

/// A drag that begins at one place, moves on and ends at another yields the box
/// between the first and the last of them; afterwards the next drag starts
/// afresh.
pub proof fn a_drag_yields_its_two_corners(
    began: &mut MyApp,
    ended: &mut MyApp,
    from: Spot,
    to: Spot,
    first: Option<(Spot, Spot)>,
    last: Option<(Spot, Spot)>,
)
    requires
        old(began).select is Picking,
        call_ensures(MyApp::drag_region, (began, true, Some(from), false), first),
        *old(ended) == *final(began),
        call_ensures(MyApp::drag_region, (ended, false, Some(to), true), last),
    ensures
        first is None,
        final(began).select == (RegionSelect::Picking { start: Some(from), current: Some(from) }),
        last == Some((from, to)),
        final(ended).select == (RegionSelect::Picking { start: None, current: None }),
        *final(ended) == (MyApp { select: final(ended).select, ..*old(began) }),
{
}

/// While the drag lasts its first corner stays and the other follows the
/// pointer; where the pointer is lost the last place that it was seen at counts.
pub proof fn a_drag_keeps_its_first_corner(
    app: &mut MyApp,
    start: Option<Spot>,
    current: Option<Spot>,
    pointer: Option<Spot>,
    ended: bool,
    r: Option<(Spot, Spot)>,
)
    requires
        old(app).select == (RegionSelect::Picking { start, current }),
        call_ensures(MyApp::drag_region, (app, false, pointer, ended), r),
    ensures
        !ended ==> r is None && final(app).select is Picking && final(app).select->start == start,
        !ended && pointer is Some ==> final(app).select->Picking_current == pointer,
        !ended && pointer is None ==> final(app).select->Picking_current == current,
        ended ==> final(app).select == (RegionSelect::Picking { start: None, current: None }),
        ended ==> (r is Some <==> start is Some && (pointer is Some || current is Some)),
        r is Some ==> start == Some((r->0).0),
        r is Some && pointer is Some ==> pointer == Some((r->0).1),
        r is Some && pointer is None ==> current == Some((r->0).1),
        *final(app) == (MyApp { select: final(app).select, ..*old(app) }),
{
}

/// Outside the picking a drag draws no box.
pub proof fn no_box_without_picking(
    app: &mut MyApp,
    began: bool,
    pointer: Option<Spot>,
    ended: bool,
    r: Option<(Spot, Spot)>,
)
    requires
        !(old(app).select is Picking),
        call_ensures(MyApp::drag_region, (app, began, pointer, ended), r),
    ensures
        r is None,
        *final(app) == *old(app),
{
}

/// A box counts from ten points on in both directions.
pub proof fn a_box_is_ten_points_or_more(width: u32, height: u32, r: bool)
    requires
        call_ensures(MyApp::is_region_box, (width, height), r),
        is_screen_distance(width),
        is_screen_distance(height),
    ensures
        r <==> width >= 0x4120_0000 && height >= 0x4120_0000,
{
}

/// A box that was picked is offered for download as it is, two zoom levels
/// deeper than the view but never deeper than 17; without picking nothing
/// happens.
pub proof fn a_picked_box_is_offered(app: &mut MyApp, a: Position, b: Position, view_zoom: u8)
    requires
        call_ensures(MyApp::choose_region, (app, a, b, view_zoom), ()),
    ensures
        !(old(app).select is Picking) ==> *final(app) == *old(app),
        old(app).select is Picking ==> {
            &&& final(app).select is Confirm
            &&& final(app).select->a == a
            &&& final(app).select->b == b
            &&& final(app).select->max_zoom <= 17
            &&& final(app).select->max_zoom <= view_zoom + 2
            &&& final(app).select->max_zoom == 17 || final(app).select->max_zoom == view_zoom + 2
        },
        *final(app) == (MyApp { select: final(app).select, ..*old(app) }),
{
}

/// Leaving the selection leaves everything else.
pub proof fn leaving_the_selection_is_all(app: &mut MyApp)
    requires
        call_ensures(MyApp::cancel_region, (app,), ()),
    ensures
        final(app).select == RegionSelect::Inactive,
        *final(app) == (MyApp { select: RegionSelect::Inactive, ..*old(app) }),
{
}

/// The minus of the stepper takes one zoom level off, down to one, and keeps the
/// box.
pub proof fn minus_is_one_level_less(
    app: &mut MyApp,
    a: Position,
    b: Position,
    max_zoom: u8,
)
    requires
        old(app).select == (RegionSelect::Confirm { a, b, max_zoom }),
        call_ensures(MyApp::lower_zoom, (app,), ()),
    ensures
        final(app).select is Confirm,
        final(app).select->a == a,
        final(app).select->b == b,
        max_zoom > 1 ==> final(app).select->max_zoom == max_zoom - 1,
        max_zoom <= 1 ==> final(app).select->max_zoom == max_zoom,
        *final(app) == (MyApp { select: final(app).select, ..*old(app) }),
{
}

/// The plus of the stepper puts one zoom level on, up to the deepest that the
/// layer has, and keeps the box.
pub proof fn plus_is_one_level_more(
    app: &mut MyApp,
    a: Position,
    b: Position,
    max_zoom: u8,
    deepest: u8,
)
    requires
        old(app).select == (RegionSelect::Confirm { a, b, max_zoom }),
        call_ensures(MapLayer::max_zoom, (old(app).layer,), deepest),
        call_ensures(MyApp::raise_zoom, (app,), ()),
    ensures
        final(app).select is Confirm,
        final(app).select->a == a,
        final(app).select->b == b,
        max_zoom < deepest ==> final(app).select->max_zoom == max_zoom + 1,
        max_zoom >= deepest ==> final(app).select->max_zoom == max_zoom,
        *final(app) == (MyApp { select: final(app).select, ..*old(app) }),
{
}

/// The stepper does nothing outside the confirm panel.
pub proof fn the_stepper_is_part_of_the_panel(down: &mut MyApp, up: &mut MyApp)
    requires
        !(old(down).select is Confirm),
        !(old(up).select is Confirm),
        call_ensures(MyApp::lower_zoom, (down,), ()),
        call_ensures(MyApp::raise_zoom, (up,), ()),
    ensures
        *final(down) == *old(down),
        *final(up) == *old(up),
{
}

/// A download is estimated at 15 KB a tile, in megabytes of 1024 KB rounded up,
/// and never at none.
pub proof fn an_estimate_is_rounded_up(count: u64, r: String)
    requires
        call_ensures(MyApp::region_text, (count,), r),
    ensures
        count == 0 ==> r@ == decimal(0) + " tiles, ~"@ + decimal(1) + " MB"@,
        forall|mb: nat|
            mb >= 1 && (mb - 1) * 1024 < count * 15 <= mb * 1024 ==> r@ == decimal(
                count as nat,
            ) + " tiles, ~"@ + #[trigger] decimal(mb) + " MB"@,
{
}

/// A download of more than 10 000 tiles is refused, and so is one with nowhere
/// to keep it; any other can start.
pub proof fn big_downloads_are_refused(app: MyApp, count: u64, big: bool, able: bool)
    requires
        call_ensures(MyApp::is_too_many, (count,), big),
        call_ensures(MyApp::can_download, (&app, count), able),
    ensures
        big <==> count > 10_000,
        able <==> !big && app.cached,
{
}

/// A confirmed download is of the box and zoom that the panel showed; it starts
/// only where it may, and then the selection is over. Otherwise nothing changes.
pub proof fn a_download_is_of_the_box_shown(
    app: &mut MyApp,
    count: u64,
    r: Option<(Position, Position, u8)>,
)
    requires
        call_ensures(MyApp::confirm_region, (app, count), r),
    ensures
        r is Some <==> old(app).select is Confirm && count <= 10_000 && old(app).cached,
        r is Some ==> old(app).select == (RegionSelect::Confirm {
            a: (r->0).0,
            b: (r->0).1,
            max_zoom: (r->0).2,
        }),
        r is Some ==> final(app).downloading && final(app).select == RegionSelect::Inactive,
        r is None ==> *final(app) == *old(app),
        *final(app) == (MyApp {
            select: final(app).select,
            downloading: final(app).downloading,
            ..*old(app)
        }),
{
}

/// A running download counts what is done of all and mentions failures where
/// there are any; a finished one says that all is done, or how many failed. It
/// can be cancelled until it is finished.
pub proof fn progress_mentions_failures(p: Progress, r: String, button: &str)
    requires
        call_ensures(Progress::text, (&p,), r),
        call_ensures(Progress::button, (&p,), button),
    ensures
        ({
            let (done, failed, total) = (
                decimal(p.done as nat),
                decimal(p.failed as nat),
                decimal(p.total as nat),
            );
            &&& !p.finished && p.failed == 0 ==> r@ == "Offline tiles: "@ + done + "/"@ + total
            &&& !p.finished && p.failed > 0 ==> r@ == "Offline tiles: "@ + done + "/"@ + total
                + " ("@ + failed + " failed)"@
            &&& p.finished && p.failed == 0 ==> r@ == "Offline tiles: all "@ + total + " done"@
            &&& p.finished && p.failed > 0 ==> r@ == "Offline tiles: done, "@ + failed + " of "@
                + total + " failed"@
        }),
        p.finished ==> button@ == "OK"@,
        !p.finished ==> button@ == "Cancel"@,
{
}

/// Holding the center button opens its menu; a download that is dismissed is not
/// shown any more; a selection is under way while anything is being selected. The
/// markers go by their names.
pub proof fn small_switches_switch(
    held: &mut MyApp,
    dismissed: &mut MyApp,
    app: MyApp,
    selecting: bool,
    kind: MarkerKind,
    name: &str,
)
    requires
        call_ensures(MyApp::center_hold, (held,), ()),
        call_ensures(MyApp::dismiss_download, (dismissed,), ()),
        call_ensures(MyApp::is_selecting, (&app,), selecting),
        call_ensures(MarkerKind::label, (kind,), name),
    ensures
        final(held).center_menu,
        *final(held) == (MyApp { center_menu: final(held).center_menu, ..*old(held) }),
        !final(dismissed).downloading,
        *final(dismissed) == (MyApp {
            downloading: final(dismissed).downloading,
            ..*old(dismissed)
        }),
        selecting <==> app.select is Picking || app.select is Confirm,
        kind == MarkerKind::You ==> name@ == "You"@,
        kind == MarkerKind::Beacon ==> name@ == "Beacon"@,
{
}

/// Whatever numbers the two distances are, the marker that is selected is the
/// closest that is there and no farther than 40 points, yours where both are as
/// close.
pub proof fn a_marker_is_picked_by_its_distance(
    app: &mut MyApp,
    to_you: u32,
    to_beacon: u32,
    you_near: bool,
    beacon_near: bool,
    you_first: bool,
)
    requires
        call_ensures(MyApp::pick_marker, (app, to_you, to_beacon), ()),
        call_ensures(no_less_single, (0x4220_0000, to_you), you_near),
        call_ensures(no_less_single, (0x4220_0000, to_beacon), beacon_near),
        call_ensures(no_less_single, (to_beacon, to_you), you_first),
    ensures
        ({
            let you = old(app).current is Some && you_near;
            let beacon = old(app).beacon is Some && beacon_near;
            &&& final(app).selected_marker == Some(MarkerKind::You) <==> you && (!beacon
                || you_first)
            &&& final(app).selected_marker == Some(MarkerKind::Beacon) <==> beacon && (!you
                || !you_first)
        }),
{
}

/// A drag that begins starts from the pointer, where there is one, whatever was
/// dragged before; it ends with a box only where it has both corners.
pub proof fn a_new_drag_starts_from_the_pointer(
    app: &mut MyApp,
    start: Option<Spot>,
    current: Option<Spot>,
    pointer: Option<Spot>,
    ended: bool,
    r: Option<(Spot, Spot)>,
)
    requires
        old(app).select == (RegionSelect::Picking { start, current }),
        call_ensures(MyApp::drag_region, (app, true, pointer, ended), r),
    ensures
        !ended ==> r is None && final(app).select is Picking && final(app).select->start == pointer,
        !ended && pointer is Some ==> final(app).select->Picking_current == pointer,
        !ended && pointer is None ==> final(app).select->Picking_current == current,
        ended ==> final(app).select == (RegionSelect::Picking { start: None, current: None }),
        ended && pointer is Some ==> r == Some((pointer->0, pointer->0)),
        ended && pointer is None ==> r is None,
        *final(app) == (MyApp { select: final(app).select, ..*old(app) }),
{
}

} // verus!
