//! What the map page decides: where to center, how to turn, which beacon to
//! track, which marker was meant, and the offline region-download selection.

use crate::app::{MarkerKind, MyApp, Page, RegionSelect, Spot};
use crate::ble::Position;
use crate::points::{age_phrase, age_secs, age_text, Timestamp};
use crate::reals::{at_least_single, no_less_single, rank_single};
use crate::text::{decimal, decimal_text, joined3};
use crate::tiles::MapLayer;
use vstd::prelude::*;

verus! {

/// Centering the map.
#[derive(Clone, Copy, PartialEq, Eq, Debug, Structural)]
pub struct Centering {
    pub target: Position,
    /// Follow the live position rather than pinning the map to one point, which
    /// is what centering on yourself should do.
    pub follow: bool,
    /// Tiles are cached to disk, so find out whether this is offline: if it is
    /// and the current zoom has no tile for the target, the map snaps to the
    /// nearest zoom that does.
    pub probe: bool,
}

/// How far two zoom levels are apart.
pub open spec fn zoom_gap(a: u8, b: u8) -> int {
    if a < b {
        b - a
    } else {
        a - b
    }
}

/// One zoom level is nearer than another, the wider view of two that are equally
/// near.
pub open spec fn is_nearer(current: u8, a: u8, b: u8) -> bool {
    zoom_gap(current, a) < zoom_gap(current, b) || (zoom_gap(current, a) == zoom_gap(current, b)
        && a <= b)
}

fn nearer(current: u8, a: u8, b: u8) -> (r: bool)
    ensures
        r == is_nearer(current, a, b),
{
    let to_a: u8 = if current < a {
        a - current
    } else {
        current - a
    };
    let to_b: u8 = if current < b {
        b - current
    } else {
        current - b
    };
    to_a < to_b || (to_a == to_b && a <= b)
}

/// The zoom that the map snaps to offline, where `there` are the levels with a
/// tile for the target: the nearest of them, or none while the current zoom is
/// among them or there are none.
pub fn offline_zoom(current: u8, there: &Vec<u8>) -> (r: Option<u8>)
    ensures
        match r {
            Some(zoom) => {
                &&& there@.contains(zoom)
                &&& !there@.contains(current)
                &&& forall|i: int|
                    0 <= i < there@.len() ==> is_nearer(current, zoom, #[trigger] there@[i])
            },
            None => there@.len() == 0 || there@.contains(current),
        },
{
    let mut best: Option<u8> = None;
    let mut i: usize = 0;
    while i < there.len()
        invariant
            i <= there@.len(),
            forall|j: int| 0 <= j < i ==> #[trigger] there@[j] != current,
            match best {
                Some(zoom) => there@.contains(zoom) && forall|j: int|
                    0 <= j < i ==> is_nearer(current, zoom, #[trigger] there@[j]),
                None => i == 0,
            },
        decreases there@.len() - i,
    {
        let zoom: u8 = there[i];
        assert(there@.contains(zoom));
        if zoom == current {
            return None;
        }
        best = match best {
            Some(other) => if nearer(current, zoom, other) {
                Some(zoom)
            } else {
                Some(other)
            },
            None => Some(zoom),
        };
        i = i + 1;
    }
    best
}

impl MyApp {
    /// The beacons that tracking mode can cycle through.
    pub open spec fn beacons(&self) -> Seq<Position> {
        match self.beacon {
            Some(p) => seq![p],
            None => seq![],
        }
    }

    /// The beacons that tracking mode can cycle through. One entry today (the
    /// single BLE beacon); the list keeps the cycling logic ready for more.
    pub fn beacon_positions(&self) -> (r: Vec<Position>)
        ensures
            r@ == self.beacons(),
    {
        let mut r: Vec<Position> = Vec::new();
        match self.beacon {
            Some(p) => {
                r.push(p);
            },
            None => {},
        }
        assert(r@ =~= self.beacons());
        r
    }

    /// The markers that the map can be centered on.
    pub open spec fn targets(&self) -> Seq<(MarkerKind, Position)> {
        (match self.current {
            Some(p) => seq![(MarkerKind::You, p)],
            None => seq![],
        }) + self.beacons().map_values(|p: Position| (MarkerKind::Beacon, p))
    }

    /// The markers the center button can center on, in menu order: you first
    /// (the plain tap's target), then each beacon. Only markers with a known
    /// position are listed, so an entry always has somewhere to go.
    pub fn center_targets(&self) -> (r: Vec<(MarkerKind, Position)>)
        ensures
            r@ == self.targets(),
    {
        let mut r: Vec<(MarkerKind, Position)> = Vec::new();
        match self.current {
            Some(p) => {
                r.push((MarkerKind::You, p));
            },
            None => {},
        }
        match self.beacon {
            Some(p) => {
                r.push((MarkerKind::Beacon, p));
            },
            None => {},
        }
        assert(r@ =~= self.targets());
        r
    }

    /// Center the map on `target`, leaving tracking mode (which recomputes the
    /// center every frame and would override this at once).
    pub fn center_on(&mut self, target: Position, follow: bool) -> (r: Centering)
        ensures
            *final(self) == (MyApp { tracking_beacon: None, ..*old(self) }),
            r == (Centering { target, follow, probe: old(self).cached }),
    {
        self.tracking_beacon = None;
        Centering { target, follow, probe: self.cached }
    }

    /// A plain tap on the center button: center on you, or on the first beacon
    /// with no fix yet. With no marker at all it does nothing.
    pub fn center_tap(&mut self) -> (r: Option<Centering>)
        ensures
            if old(self).targets().len() == 0 {
                r is None && *final(self) == *old(self)
            } else {
                let (kind, target) = old(self).targets()[0];
                &&& *final(self) == (MyApp { tracking_beacon: None, ..*old(self) })
                &&& r == Some(
                    Centering { target, follow: kind == MarkerKind::You, probe: old(self).cached },
                )
            },
    {
        match (self.current, self.beacon) {
            (Some(p), _) => Some(self.center_on(p, true)),
            (None, Some(p)) => Some(self.center_on(p, false)),
            (None, None) => None,
        }
    }

    /// Holding the center button opens the list of markers.
    pub fn center_hold(&mut self)
        ensures
            *final(self) == (MyApp { center_menu: true, ..*old(self) }),
    {
        self.center_menu = true;
    }

    /// Picks an entry of the list of markers, which closes it.
    pub fn center_pick(&mut self, i: usize) -> (r: Option<Centering>)
        ensures
            if i < old(self).targets().len() {
                let (kind, target) = old(self).targets()[i as int];
                &&& *final(self) == (MyApp {
                    tracking_beacon: None,
                    center_menu: false,
                    ..*old(self)
                })
                &&& r == Some(
                    Centering { target, follow: kind == MarkerKind::You, probe: old(self).cached },
                )
            } else {
                r is None && *final(self) == (MyApp { center_menu: false, ..*old(self) })
            },
    {
        self.center_menu = false;
        let targets = self.center_targets();
        assert(self.targets() == old(self).targets());
        if i < targets.len() {
            let (kind, target) = targets[i];
            Some(self.center_on(target, kind == MarkerKind::You))
        } else {
            None
        }
    }

    /// The heading button is there: a direction can be had, and tracking mode
    /// does not own the map's orientation.
    pub open spec fn offers_heading(&self) -> bool {
        self.can_turn() && self.tracking_beacon is None
    }

    /// Whether the heading button is shown. Heading-up only makes sense with a
    /// direction source; with none the map stays north-up and the button is
    /// hidden. It is hidden while tracking too, which owns the map's
    /// orientation - the track button is the way out of that mode.
    pub fn shows_heading_button(&self) -> (r: bool)
        ensures
            r == self.offers_heading(),
    {
        self.has_direction() && self.tracking_beacon.is_none()
    }

    /// The heading button names the mode it switches to.
    pub fn heading_hint(&self) -> (r: &'static str)
        ensures
            r@ == if self.heading_up {
                "North up"@
            } else {
                "Heading up"@
            },
    {
        if self.heading_up {
            "North up"
        } else {
            "Heading up"
        }
    }

    /// The state after a press of the heading button, which does nothing where
    /// the button is not shown.
    pub open spec fn heading_pressed(self) -> MyApp {
        MyApp {
            heading_up: if self.offers_heading() {
                !self.heading_up
            } else {
                self.heading_up
            },
            ..self
        }
    }

    /// A press of the heading button, where it is shown.
    pub fn press_heading(&mut self)
        ensures
            *final(self) == old(self).heading_pressed(),
    {
        if self.shows_heading_button() {
            self.heading_up = !self.heading_up;
        }
    }

    /// The state without a stale heading-up flag.
    pub open spec fn settled(self) -> MyApp {
        MyApp { heading_up: self.heading_up && self.can_turn(), ..self }
    }

    /// With no orientation available there is nothing to toggle, so the map
    /// stays north-up and any stale heading-up flag is dropped.
    pub fn settle_heading(&mut self)
        ensures
            *final(self) == old(self).settled(),
    {
        if !self.has_direction() {
            self.heading_up = false;
        }
    }

    /// Tracking is possible: it frames you and a beacon together.
    pub open spec fn trackable(&self) -> bool {
        self.current is Some && self.beacons().len() > 0
    }

    /// Whether the track button does anything. Tracking frames the two together,
    /// so it needs both a live user position and at least one beacon; entering
    /// with a piece missing would lock the map on a view it cannot frame.
    pub fn can_track(&self) -> (r: bool)
        ensures
            r == self.trackable(),
    {
        self.current.is_some() && self.beacon.is_some()
    }

    /// What the track button would do.
    pub fn track_hint(&self) -> (r: &'static str)
        ensures
            r@ == match self.tracking_beacon {
                Some(i) => if i + 1 < self.beacons().len() {
                    "Next beacon"@
                } else {
                    "Exit tracking"@
                },
                None => "Track beacon"@,
            },
    {
        match self.tracking_beacon {
            Some(i) => {
                let n: usize = self.beacon_positions().len();
                if n > 0 && i < n - 1 {
                    "Next beacon"
                } else {
                    "Exit tracking"
                }
            },
            None => "Track beacon",
        }
    }

    /// The state after a press of the track button, which does nothing where
    /// there is not both a position and a beacon.
    pub open spec fn track_pressed(self) -> MyApp {
        if self.trackable() {
            MyApp {
                tracking_beacon: track_after(self.tracking_beacon, self.beacons().len()),
                heading_up: self.heading_up && self.tracking_beacon is Some,
                ..self
            }
        } else {
            self
        }
    }

    /// A press of the track button. Tapping enters the mode on the first
    /// beacon, then walks along the beacon list, and the press after the last
    /// one leaves the mode - this button is the only way in and out.
    pub fn press_track(&mut self)
        ensures
            *final(self) == old(self).track_pressed(),
    {
        if self.can_track() {
            let n: usize = self.beacon_positions().len();
            match self.tracking_beacon {
                Some(i) => {
                    self.tracking_beacon = if i < n - 1 {
                        Some(i + 1)
                    } else {
                        None
                    };
                },
                None => {
                    // Tracking and heading-up are mutually exclusive.
                    self.heading_up = false;
                    self.tracking_beacon = Some(0);
                },
            }
        }
    }

    /// The two positions that tracking mode frames.
    pub open spec fn pair(&self) -> Option<(Position, Position)> {
        match (self.tracking_beacon, self.current) {
            (Some(i), Some(user)) => if i < self.beacons().len() {
                Some((user, self.beacons()[i as int]))
            } else {
                None
            },
            _ => None,
        }
    }

    /// The state without a tracked beacon that can no longer be framed.
    pub open spec fn paired(self) -> MyApp {
        MyApp {
            tracking_beacon: if self.pair() is Some {
                self.tracking_beacon
            } else {
                None
            },
            ..self
        }
    }

    /// While tracking a beacon, the user and that beacon, to be framed. Tracking
    /// needs both. If either is gone (no fix yet, beacon disconnected, index
    /// now out of range), it leaves tracking mode so the map unlocks instead of
    /// freezing on a view it can no longer manage.
    pub fn tracking_pair(&mut self) -> (r: Option<(Position, Position)>)
        ensures
            r == old(self).pair(),
            *final(self) == old(self).paired(),
    {
        match self.tracking_beacon {
            None => None,
            Some(i) => {
                let beacons = self.beacon_positions();
                match self.current {
                    Some(user) => {
                        if i < beacons.len() {
                            return Some((user, beacons[i]));
                        }
                    },
                    None => {},
                }
                self.tracking_beacon = None;
                None
            },
        }
    }

    /// The layer button: to the other layer.
    pub fn press_layer(&mut self)
        ensures
            *final(self) == (MyApp { layer: old(self).layer.other(), ..*old(self) }),
    {
        self.layer = self.layer.switched();
    }

    /// The layer button names the layer it switches to.
    pub fn layer_hint(&self) -> (r: &'static str)
        ensures
            r@ == match self.layer {
                MapLayer::Standard => "Topographic map"@,
                MapLayer::Topo => "Standard map"@,
            },
    {
        match self.layer {
            MapLayer::Standard => "Topographic map",
            MapLayer::Topo => "Standard map",
        }
    }

    /// Forgets both tracks.
    pub fn clear_tracks(&mut self)
        ensures
            *final(self) == (MyApp {
                track: final(self).track,
                beacon_track: final(self).beacon_track,
                ..*old(self)
            }),
            final(self).track@.len() == 0,
            final(self).beacon_track@.len() == 0,
    {
        self.track = Vec::new();
        self.beacon_track = Vec::new();
    }

    /// A region is being selected. Box selection needs the screen to map 1:1
    /// onto the north-up tile space, so rotation pauses meanwhile.
    pub open spec fn selecting(&self) -> bool {
        self.select != RegionSelect::Inactive
    }

    /// Whether a region is being selected.
    pub fn is_selecting(&self) -> (r: bool)
        ensures
            r == self.selecting(),
    {
        self.select != RegionSelect::Inactive
    }

    /// The angle the map should be turned to: the tracking bearing wins;
    /// otherwise heading-up uses the live heading. Anything else leaves the map
    /// north-up.
    pub fn target_heading(&self, track_bearing: Option<u32>) -> (r: Option<u32>)
        ensures
            r == if track_bearing is Some {
                track_bearing
            } else if self.heading_up && !self.selecting() {
                self.best_heading()
            } else {
                None
            },
    {
        if track_bearing.is_some() {
            track_bearing
        } else if self.heading_up && !self.is_selecting() {
            self.effective_heading()
        } else {
            None
        }
    }

    /// Whether the map is locked to the current position: heading-up (without
    /// tracking, which already centers on the midpoint) stays centered on you,
    /// which also makes dragging a no-op so the rotated view can't be panned
    /// off.
    pub fn follows_position(&self, tracking: bool) -> (r: bool)
        ensures
            r == (!tracking && self.heading_up && self.current is Some),
    {
        !tracking && self.heading_up && self.current.is_some()
    }

    /// Whether the map may be zoomed by hand. Tracking mode owns the center and
    /// zoom (recomputed each frame), so it locks out manual pan and zoom on
    /// every platform.
    pub fn allows_zoom(&self) -> (r: bool)
        ensures
            r == (self.tracking_beacon is None),
    {
        self.tracking_beacon.is_none()
    }

    /// Whether the map may be panned by hand: not while tracking, not turned on
    /// mobile, not while pinching (the two-finger gesture zooms instead of
    /// dragging), and not while a download box is being picked (the drag draws
    /// the box instead).
    pub fn allows_pan(&self, turned: bool, mobile: bool, pinching: bool) -> (r: bool)
        ensures
            r == (self.tracking_beacon is None && !(turned && mobile) && !pinching
                && !(self.select is Picking)),
    {
        let picking = match self.select {
            RegionSelect::Picking { .. } => true,
            _ => false,
        };
        self.tracking_beacon.is_none() && !(turned && mobile) && !pinching && !picking
    }

    /// How many points of the beacon's path to draw: all of them, or none where
    /// the path is hidden.
    pub fn beacon_path_len(&self) -> (r: usize)
        ensures
            r == if self.config.ble.show_path {
                self.beacon_track@.len()
            } else {
                0
            },
    {
        if self.config.ble.show_path {
            self.beacon_track.len()
        } else {
            0
        }
    }

    /// The two ends of the distance label's line, where the label is shown.
    pub fn distance_ends(&self) -> (r: Option<(Position, Position)>)
        ensures
            r == match (self.current, self.beacon) {
                (Some(user), Some(beacon)) => if self.config.distance.show {
                    Some((user, beacon))
                } else {
                    None
                },
                _ => None,
            },
    {
        match (self.current, self.beacon) {
            (Some(user), Some(beacon)) => if self.config.distance.show {
                Some((user, beacon))
            } else {
                None
            },
            _ => None,
        }
    }
}

/// The tracked beacon after a press of the track button, with so many beacons
/// to walk along.
pub open spec fn track_after(tracking: Option<usize>, beacons: nat) -> Option<usize> {
    match tracking {
        None => Some(0),
        Some(i) => if i + 1 < beacons {
            Some((i + 1) as usize)
        } else {
            None
        },
    }
}

/// The tracked beacon after some presses.
pub open spec fn track_after_all(tracking: Option<usize>, beacons: nat, presses: nat) -> Option<
    usize,
>
    decreases presses,
{
    if presses == 0 {
        tracking
    } else {
        track_after(
            track_after_all(tracking, beacons, (presses - 1) as nat),
            beacons,
        )
    }
}

/// The track button walks along every beacon in turn, and the press after the
/// last one leaves the mode.
pub proof fn track_button_visits_every_beacon(beacons: nat, presses: nat)
    requires
        0 < beacons <= usize::MAX,
        presses <= beacons + 1,
    ensures
        track_after_all(None, beacons, presses) == if presses == 0 || presses == beacons + 1 {
            None
        } else {
            Some((presses - 1) as usize)
        },
    decreases presses,
{
    if presses > 0 {
        track_button_visits_every_beacon(beacons, (presses - 1) as nat);
    }
}

/// Tracking mode and heading-up exclude each other.
pub open spec fn exclusive(app: MyApp) -> bool {
    app.tracking_beacon is Some ==> !app.heading_up
}

/// Tracking mode and heading-up stay exclusive: no press of the heading or the
/// track button turns one on while the other stays on, and neither does
/// dropping a stale flag or a lost pair.
pub proof fn modes_stay_exclusive(app: MyApp)
    requires
        exclusive(app),
    ensures
        exclusive(app.heading_pressed()),
        exclusive(app.track_pressed()),
        exclusive(app.settled()),
        exclusive(app.paired()),
{
}

/// Where there is one beacon and a position, the track button is a plain toggle
/// that leaves everything but the map's orientation as it was.
pub proof fn two_track_presses_leave_the_mode(app: MyApp)
    requires
        app.trackable(),
        app.tracking_beacon is None,
    ensures
        app.track_pressed().tracking_beacon == Some(0usize),
        app.track_pressed().track_pressed() == (MyApp { heading_up: false, ..app }),
{
}

/// Pressing the layer button twice changes nothing.
pub proof fn two_layer_presses_undo_each_other(layer: MapLayer)
    ensures
        layer.other().other() == layer,
{
}

/// A marker that a double-click can mean: it is there, and near enough.
pub open spec fn is_hit(there: bool, distance: u32) -> bool {
    there && at_least_single(0x4220_0000, distance)
}

/// The marker that a double-click means: the closest within the hit radius, of
/// two equally close ones you.
pub open spec fn marker_hit(app: MyApp, to_you: u32, to_beacon: u32) -> Option<MarkerKind> {
    let you = is_hit(app.current is Some, to_you);
    let beacon = is_hit(app.beacon is Some, to_beacon);
    if you && !(beacon && rank_single(to_beacon) < rank_single(to_you)) {
        Some(MarkerKind::You)
    } else if beacon {
        Some(MarkerKind::Beacon)
    } else {
        None
    }
}

/// The info popup of a marker.
pub struct Popup {
    pub kind: MarkerKind,
    pub pos: Position,
    pub age: String,
}

/// How fresh a marker is, in words.
pub open spec fn freshness(time: Option<Timestamp>, now: Timestamp) -> Seq<char> {
    match time {
        Some(t) => "Updated "@ + age_phrase(age_secs(now, t)) + " ago"@,
        None => "No update yet"@,
    }
}

impl MyApp {
    /// On a double-click, pick the closest marker within the hit radius of 40
    /// points; a miss clears the current selection. The distances are
    /// single-precision bit patterns, and mean nothing for a marker that is not
    /// there.
    pub fn pick_marker(&mut self, to_you: u32, to_beacon: u32)
        ensures
            *final(self) == (MyApp {
                selected_marker: marker_hit(*old(self), to_you, to_beacon),
                ..*old(self)
            }),
    {
        let you: bool = self.current.is_some() && no_less_single(0x4220_0000, to_you);
        let beacon: bool = self.beacon.is_some() && no_less_single(0x4220_0000, to_beacon);
        self.selected_marker = if you && !(beacon && !no_less_single(to_beacon, to_you)) {
            Some(MarkerKind::You)
        } else if beacon {
            Some(MarkerKind::Beacon)
        } else {
            None
        };
    }

    /// Where a marker is.
    pub open spec fn marker_pos(&self, kind: MarkerKind) -> Option<Position> {
        match kind {
            MarkerKind::You => self.current,
            MarkerKind::Beacon => self.beacon,
        }
    }

    /// When a marker was last updated.
    pub open spec fn marker_time(&self, kind: MarkerKind) -> Option<Timestamp> {
        match kind {
            MarkerKind::You => self.current_time,
            MarkerKind::Beacon => self.beacon_time,
        }
    }

    /// The info popup of the selected marker. The marker may have vanished
    /// (e.g. beacon disconnected) since it was selected; the popup is dropped
    /// if so.
    pub fn marker_popup(&mut self, now: Timestamp) -> (r: Option<Popup>)
        ensures
            match old(self).selected_marker {
                None => r is None && *final(self) == *old(self),
                Some(kind) => match old(self).marker_pos(kind) {
                    None => r is None && *final(self) == (MyApp {
                        selected_marker: None,
                        ..*old(self)
                    }),
                    Some(pos) => {
                        &&& *final(self) == *old(self)
                        &&& r is Some
                        &&& r->0.kind == kind
                        &&& r->0.pos == pos
                        &&& r->0.age@ == freshness(old(self).marker_time(kind), now)
                    },
                },
            },
    {
        match self.selected_marker {
            None => None,
            Some(kind) => {
                let (pos, time) = match kind {
                    MarkerKind::You => (self.current, self.current_time),
                    MarkerKind::Beacon => (self.beacon, self.beacon_time),
                };
                match pos {
                    None => {
                        self.selected_marker = None;
                        None
                    },
                    Some(pos) => {
                        let age = match time {
                            Some(t) => joined3("Updated ", age_text(now, t).as_str(), " ago"),
                            None => "No update yet".to_owned(),
                        };
                        Some(Popup { kind, pos, age })
                    },
                }
            },
        }
    }
}

/// Refuse offline downloads bigger than this many tiles (tile-server
/// courtesy; shrink the box or lower the max zoom instead).
pub const MAX_REGION_TILES: u64 = 10_000;

/// Rough average size of a cached OSM tile, for the download estimate.
pub const TILE_SIZE_ESTIMATE_KB: u64 = 15;

/// A download's size in megabytes: kilobytes divided by 1024, rounded up, and
/// at least one.
pub open spec fn megabytes(count: u64) -> int {
    let kb = count * TILE_SIZE_ESTIMATE_KB;
    if kb == 0 {
        1
    } else {
        (kb + 1023) / 1024
    }
}

/// The deepest zoom that is offered first: two levels past the current view, and
/// no deeper than 17.
pub open spec fn first_max_zoom(view_zoom: u8) -> u8 {
    if view_zoom >= 15 {
        17
    } else {
        (view_zoom + 2) as u8
    }
}

/// A selection after the minus of the max-zoom stepper: one zoom less, down to
/// one.
pub open spec fn stepped_down(select: RegionSelect) -> RegionSelect {
    match select {
        RegionSelect::Confirm { a, b, max_zoom } => if max_zoom > 1 {
            RegionSelect::Confirm { a, b, max_zoom: (max_zoom - 1) as u8 }
        } else {
            select
        },
        _ => select,
    }
}

/// A selection after the plus of the max-zoom stepper: one zoom more, up to the
/// layer's deepest.
pub open spec fn stepped_up(select: RegionSelect, layer: MapLayer) -> RegionSelect {
    match select {
        RegionSelect::Confirm { a, b, max_zoom } => if max_zoom < layer.deepest() {
            RegionSelect::Confirm { a, b, max_zoom: (max_zoom + 1) as u8 }
        } else {
            select
        },
        _ => select,
    }
}

/// A selection asks for no zoom that the layer does not have.
pub open spec fn in_range(select: RegionSelect, layer: MapLayer) -> bool {
    select matches RegionSelect::Confirm { max_zoom, .. } ==> 1 <= max_zoom <= layer.deepest()
}

/// The state of a running or finished download.
pub struct Progress {
    pub done: u64,
    pub failed: u64,
    pub total: u64,
    pub finished: bool,
}

/// The state of a download, in words.
pub open spec fn progress_phrase(p: Progress) -> Seq<char> {
    if p.finished {
        if p.failed > 0 {
            "Offline tiles: done, "@ + decimal(p.failed as nat) + " of "@ + decimal(p.total as nat)
                + " failed"@
        } else {
            "Offline tiles: all "@ + decimal(p.total as nat) + " done"@
        }
    } else if p.failed > 0 {
        "Offline tiles: "@ + decimal(p.done as nat) + "/"@ + decimal(p.total as nat) + " ("@
            + decimal(p.failed as nat) + " failed)"@
    } else {
        "Offline tiles: "@ + decimal(p.done as nat) + "/"@ + decimal(p.total as nat)
    }
}

impl Progress {
    /// The state of the download, in words.
    pub fn text(&self) -> (r: String)
        ensures
            r@ == progress_phrase(*self),
    {
        let total = decimal_text(self.total);
        let failed = decimal_text(self.failed);
        if self.finished {
            if self.failed > 0 {
                let mut r = "Offline tiles: done, ".to_owned();
                r.append(failed.as_str());
                r.append(" of ");
                r.append(total.as_str());
                r.append(" failed");
                r
            } else {
                joined3("Offline tiles: all ", total.as_str(), " done")
            }
        } else {
            let mut r = "Offline tiles: ".to_owned();
            r.append(decimal_text(self.done).as_str());
            r.append("/");
            r.append(total.as_str());
            if self.failed > 0 {
                r.append(" (");
                r.append(failed.as_str());
                r.append(" failed)");
            }
            r
        }
    }

    /// What the button beside it says.
    pub fn button(&self) -> (r: &'static str)
        ensures
            r@ == if self.finished {
                "OK"@
            } else {
                "Cancel"@
            },
    {
        if self.finished {
            "OK"
        } else {
            "Cancel"
        }
    }
}

impl MyApp {
    /// Starts picking a region to download: jumps to the map with the box
    /// selection active. Only where tiles are cached to disk, and one download
    /// at a time.
    pub fn start_region(&mut self)
        ensures
            *final(self) == if old(self).cached && !old(self).downloading {
                MyApp {
                    page: Page::MapView,
                    select: RegionSelect::Picking { start: None, current: None },
                    ..*old(self)
                }
            } else {
                *old(self)
            },
    {
        if self.cached && !self.downloading {
            self.page = Page::MapView;
            self.select = RegionSelect::Picking { start: None, current: None };
        }
    }

    /// One frame of the box drag: whether a drag began, where the pointer is,
    /// and whether the drag ended. Returns the two corners of a box that was
    /// just let go; the selection then waits for a new drag, unless the box is
    /// chosen.
    pub fn drag_region(&mut self, began: bool, pointer: Option<Spot>, ended: bool) -> (r: Option<
        (Spot, Spot),
    >)
        ensures
            match old(self).select {
                RegionSelect::Picking { start, current } => {
                    let from = if began {
                        pointer
                    } else {
                        start
                    };
                    let to = if pointer is Some {
                        pointer
                    } else {
                        current
                    };
                    &&& *final(self) == (MyApp {
                        select: if ended {
                            RegionSelect::Picking { start: None, current: None }
                        } else {
                            RegionSelect::Picking { start: from, current: to }
                        },
                        ..*old(self)
                    })
                    &&& r == if ended && from is Some && to is Some {
                        Some((from->0, to->0))
                    } else {
                        None
                    }
                },
                _ => *final(self) == *old(self) && r is None,
            },
    {
        match self.select {
            RegionSelect::Picking { start, current } => {
                let from = if began {
                    pointer
                } else {
                    start
                };
                let to = if pointer.is_some() {
                    pointer
                } else {
                    current
                };
                if !ended {
                    self.select = RegionSelect::Picking { start: from, current: to };
                    return None;
                }
                self.select = RegionSelect::Picking { start: None, current: None };
                match (from, to) {
                    (Some(a), Some(b)) => Some((a, b)),
                    _ => None,
                }
            },
            _ => None,
        }
    }

    /// Whether a box is big enough to mean something: taps and hairline drags,
    /// under ten points wide or high, are ignored.
    pub fn is_region_box(width: u32, height: u32) -> (r: bool)
        ensures
            r == (at_least_single(width, 0x4120_0000) && at_least_single(height, 0x4120_0000)),
    {
        no_less_single(width, 0x4120_0000) && no_less_single(height, 0x4120_0000)
    }

    /// Chooses the box that was just let go, by its corners on the map; the
    /// confirm panel comes next. `view_zoom` is the map's zoom, rounded up.
    pub fn choose_region(&mut self, a: Position, b: Position, view_zoom: u8)
        ensures
            *final(self) == if old(self).select is Picking {
                MyApp {
                    select: RegionSelect::Confirm { a, b, max_zoom: first_max_zoom(view_zoom) },
                    ..*old(self)
                }
            } else {
                *old(self)
            },
    {
        match self.select {
            RegionSelect::Picking { .. } => {
                let max_zoom: u8 = if view_zoom >= 15 {
                    17
                } else {
                    view_zoom + 2
                };
                self.select = RegionSelect::Confirm { a, b, max_zoom };
            },
            _ => {},
        }
    }

    /// Leaves the selection.
    pub fn cancel_region(&mut self)
        ensures
            *final(self) == (MyApp { select: RegionSelect::Inactive, ..*old(self) }),
    {
        self.select = RegionSelect::Inactive;
    }

    /// The minus of the max-zoom stepper.
    pub fn lower_zoom(&mut self)
        ensures
            *final(self) == (MyApp { select: stepped_down(old(self).select), ..*old(self) }),
    {
        match self.select {
            RegionSelect::Confirm { a, b, max_zoom } => {
                if max_zoom > 1 {
                    self.select = RegionSelect::Confirm { a, b, max_zoom: max_zoom - 1 };
                }
            },
            _ => {},
        }
    }

    /// The plus of the max-zoom stepper. Topo tiles stop at zoom 17; levels the
    /// server does not have are not offered.
    pub fn raise_zoom(&mut self)
        ensures
            *final(self) == (MyApp {
                select: stepped_up(old(self).select, old(self).layer),
                ..*old(self)
            }),
    {
        match self.select {
            RegionSelect::Confirm { a, b, max_zoom } => {
                if max_zoom < self.layer.max_zoom() {
                    self.select = RegionSelect::Confirm { a, b, max_zoom: max_zoom + 1 };
                }
            },
            _ => {},
        }
    }

    /// The size of a download, in words.
    pub fn region_text(count: u64) -> (r: String)
        requires
            count * TILE_SIZE_ESTIMATE_KB <= u64::MAX,
        ensures
            r@ == decimal(count as nat) + " tiles, ~"@ + decimal(megabytes(count) as nat) + " MB"@,
    {
        let kb: u64 = count * TILE_SIZE_ESTIMATE_KB;
        let mb: u64 = if kb == 0 {
            1
        } else {
            (kb - 1) / 1024 + 1
        };
        let mut r = decimal_text(count);
        r.append(" tiles, ~");
        r.append(decimal_text(mb).as_str());
        r.append(" MB");
        r
    }

    /// Whether a download has too many tiles.
    pub fn is_too_many(count: u64) -> (r: bool)
        ensures
            r == (count > MAX_REGION_TILES),
    {
        count > MAX_REGION_TILES
    }

    /// Whether the download can start: not too many tiles, and somewhere to
    /// keep them.
    pub fn can_download(&self, count: u64) -> (r: bool)
        ensures
            r == (count <= MAX_REGION_TILES && self.cached),
    {
        count <= MAX_REGION_TILES && self.cached
    }

    /// Confirms the download, which has `count` tiles. Returns the region and
    /// its deepest zoom where it starts.
    pub fn confirm_region(&mut self, count: u64) -> (r: Option<(Position, Position, u8)>)
        ensures
            match old(self).select {
                RegionSelect::Confirm { a, b, max_zoom } => if count <= MAX_REGION_TILES && old(
                    self,
                ).cached {
                    &&& r == Some((a, b, max_zoom))
                    &&& *final(self) == (MyApp {
                        select: RegionSelect::Inactive,
                        downloading: true,
                        ..*old(self)
                    })
                } else {
                    r is None && *final(self) == *old(self)
                },
                _ => r is None && *final(self) == *old(self),
            },
    {
        match self.select {
            RegionSelect::Confirm { a, b, max_zoom } => {
                if self.can_download(count) {
                    self.select = RegionSelect::Inactive;
                    self.downloading = true;
                    Some((a, b, max_zoom))
                } else {
                    None
                }
            },
            _ => None,
        }
    }

    /// Dismisses the download read-out, finished or not.
    pub fn dismiss_download(&mut self)
        ensures
            *final(self) == (MyApp { downloading: false, ..*old(self) }),
    {
        self.downloading = false;
    }
}

/// The stepper never leaves the zooms that the layer has: from a zoom between
/// one and the layer's deepest, both buttons stay there.
pub proof fn stepper_stays_in_range(select: RegionSelect, layer: MapLayer)
    requires
        in_range(select, layer),
    ensures
        in_range(stepped_down(select), layer),
        in_range(stepped_up(select, layer), layer),
{
}

/// The two buttons of the stepper undo each other, short of the ends.
pub proof fn stepping_back_undoes_a_step(select: RegionSelect, layer: MapLayer)
    requires
        in_range(select, layer),
    ensures
        stepped_up(select, layer) != select ==> stepped_down(stepped_up(select, layer)) == select,
        stepped_down(select) != select ==> stepped_up(stepped_down(select), layer) == select,
{
}

/// The zoom that is offered first is one that either layer has.
pub proof fn first_zoom_is_offered_by_both(a: Position, b: Position, view_zoom: u8, layer: MapLayer)
    ensures
        in_range(RegionSelect::Confirm { a, b, max_zoom: first_max_zoom(view_zoom) }, layer),
{
}

} // verus!
