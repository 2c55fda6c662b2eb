//! What the map page decides.

use gps_gui_rs::app::map::{
    offline_zoom, Centering, Progress, MAX_REGION_TILES, TILE_SIZE_ESTIMATE_KB,
};
use gps_gui_rs::app::{BoardDefaults, MarkerKind, MyApp, Page, RegionSelect, Spot};
use gps_gui_rs::ble::Position;
use gps_gui_rs::points::{PointSource, Timestamp, TrackPoint};
use gps_gui_rs::tiles::MapLayer;

fn app() -> MyApp {
    let defaults = BoardDefaults {
        update_interval_ms: 1000,
        esp_sleep_min_s: 5,
        esp_adv_default_s: 15,
    };
    MyApp::new(defaults, false, false, true, "c.toml".into(), None, 0).0
}

const YOU: Position = Position { lat: 1, lon: 2 };
const BEACON: Position = Position { lat: 3, lon: 4 };

fn both() -> MyApp {
    let mut app = app();
    app.current = Some(YOU);
    app.beacon = Some(BEACON);
    app
}

fn spot(x: f32, y: f32) -> Spot {
    Spot { x: x.to_bits(), y: y.to_bits() }
}

#[test]
fn center_button_prefers_you() {
    let mut app = app();
    assert_eq!(app.center_tap(), None);
    assert!(app.center_targets().is_empty());
    app.beacon = Some(BEACON);
    app.tracking_beacon = Some(0);
    assert_eq!(
        app.center_tap(),
        Some(Centering { target: BEACON, follow: false, probe: true })
    );
    assert_eq!(app.tracking_beacon, None);
    app.current = Some(YOU);
    app.cached = false;
    assert_eq!(
        app.center_tap(),
        Some(Centering { target: YOU, follow: true, probe: false })
    );
}

#[test]
fn center_menu_lists_every_marker() {
    let mut app = both();
    assert_eq!(
        app.center_targets(),
        [(MarkerKind::You, YOU), (MarkerKind::Beacon, BEACON)]
    );
    assert_eq!(MarkerKind::You.label(), "You");
    assert_eq!(MarkerKind::Beacon.label(), "Beacon");
    app.center_hold();
    assert!(app.center_menu);
    let to = app.center_pick(1).unwrap();
    assert_eq!((to.target, to.follow), (BEACON, false));
    assert!(!app.center_menu);
    assert!(app.center_pick(0).unwrap().follow);
    assert_eq!(app.center_pick(2), None);
}

#[test]
fn heading_button_needs_a_direction() {
    let mut app = app();
    assert!(!app.shows_heading_button());
    app.press_heading();
    assert!(!app.heading_up);
    // A compass that is off could supply one.
    app.compass = Some(false);
    assert!(app.shows_heading_button());
    assert_eq!(app.heading_hint(), "Heading up");
    app.press_heading();
    assert!(app.heading_up);
    assert_eq!(app.heading_hint(), "North up");
    app.settle_heading();
    assert!(app.heading_up);
    app.compass = None;
    app.settle_heading();
    assert!(!app.heading_up);
    app.heading = Some(0);
    app.tracking_beacon = Some(0);
    assert!(!app.shows_heading_button());
    app.press_heading();
    assert!(!app.heading_up);
}

#[test]
fn track_button_is_the_way_in_and_out() {
    let mut app = app();
    app.current = Some(YOU);
    assert!(!app.can_track());
    app.press_track();
    assert_eq!(app.tracking_beacon, None);
    app.beacon = Some(BEACON);
    app.heading_up = true;
    assert!(app.can_track());
    assert_eq!(app.track_hint(), "Track beacon");
    app.press_track();
    assert_eq!(app.tracking_beacon, Some(0));
    assert!(!app.heading_up);
    assert_eq!(app.track_hint(), "Exit tracking");
    assert!(!app.allows_zoom());
    assert_eq!(app.tracking_pair(), Some((YOU, BEACON)));
    app.press_track();
    assert_eq!(app.tracking_beacon, None);
    assert_eq!(app.tracking_pair(), None);
    assert!(app.allows_zoom());
}

#[test]
fn tracking_ends_when_a_piece_is_gone() {
    let mut app = both();
    app.press_track();
    app.beacon = None;
    assert_eq!(app.tracking_pair(), None);
    assert_eq!(app.tracking_beacon, None);
    let mut app = both();
    app.tracking_beacon = Some(usize::MAX);
    assert_eq!(app.track_hint(), "Exit tracking");
    assert_eq!(app.tracking_pair(), None);
    assert_eq!(app.tracking_beacon, None);
    app.tracking_beacon = Some(usize::MAX);
    app.press_track();
    assert_eq!(app.tracking_beacon, None);
}

#[test]
fn layer_button_names_the_other_layer() {
    let mut app = app();
    assert_eq!(app.layer_hint(), "Topographic map");
    app.press_layer();
    assert_eq!(app.layer, MapLayer::Topo);
    assert_eq!(app.layer_hint(), "Standard map");
    app.press_layer();
    assert_eq!(app.layer, MapLayer::Standard);
}

#[test]
fn map_turns_to_the_bearing_or_the_heading() {
    let mut app = both();
    app.heading = Some(7);
    assert_eq!(app.target_heading(None), None);
    assert_eq!(app.target_heading(Some(3)), Some(3));
    app.heading_up = true;
    assert_eq!(app.target_heading(None), Some(7));
    assert!(app.follows_position(false));
    assert!(!app.follows_position(true));
    app.select = RegionSelect::Picking { start: None, current: None };
    assert!(app.is_selecting());
    assert_eq!(app.target_heading(None), None);
    app.current = None;
    assert!(!app.follows_position(false));
}

#[test]
fn panning_is_locked_when_it_would_fight() {
    let mut app = app();
    assert!(app.allows_pan(false, true, false));
    assert!(app.allows_pan(true, false, false));
    assert!(!app.allows_pan(true, true, false));
    assert!(!app.allows_pan(false, false, true));
    app.select = RegionSelect::Picking { start: None, current: None };
    assert!(!app.allows_pan(false, false, false));
    app.select = RegionSelect::Inactive;
    app.tracking_beacon = Some(0);
    assert!(!app.allows_pan(false, false, false));
}

#[test]
fn overlays_follow_the_settings() {
    let mut app = both();
    let p = TrackPoint {
        pos: YOU,
        coords: "1 2".into(),
        source: PointSource::Esp,
        time: Timestamp { secs: 0, nanos: 0 },
    };
    app.beacon_track.push(p);
    assert_eq!(app.beacon_path_len(), 0);
    app.config.ble.show_path = true;
    assert_eq!(app.beacon_path_len(), 1);
    assert_eq!(app.distance_ends(), None);
    app.config.distance.show = true;
    assert_eq!(app.distance_ends(), Some((YOU, BEACON)));
    app.clear_tracks();
    assert!(app.beacon_track.is_empty() && app.track.is_empty());
    app.beacon = None;
    assert_eq!(app.distance_ends(), None);
}

#[test]
fn nearest_marker_in_reach_is_picked() {
    let pick = |app: &mut MyApp, you: f32, beacon: f32| {
        app.pick_marker(you.to_bits(), beacon.to_bits());
        app.selected_marker
    };
    let mut app = both();
    assert_eq!(pick(&mut app, 40.0, 50.0), Some(MarkerKind::You));
    assert_eq!(pick(&mut app, 40.1, 50.0), None);
    assert_eq!(pick(&mut app, 10.0, 9.0), Some(MarkerKind::Beacon));
    assert_eq!(pick(&mut app, 10.0, 10.0), Some(MarkerKind::You));
    assert_eq!(pick(&mut app, f32::NAN, 1.0), Some(MarkerKind::Beacon));
    app.current = None;
    assert_eq!(pick(&mut app, 0.0, 30.0), Some(MarkerKind::Beacon));
    app.beacon = None;
    assert_eq!(pick(&mut app, 0.0, 0.0), None);
}

#[test]
fn popup_tells_the_age_and_goes_with_its_marker() {
    let now = Timestamp { secs: 130, nanos: 0 };
    let mut app = both();
    assert!(app.marker_popup(now).is_none());
    app.selected_marker = Some(MarkerKind::Beacon);
    let popup = app.marker_popup(now).unwrap();
    assert_eq!((popup.kind, popup.pos), (MarkerKind::Beacon, BEACON));
    assert_eq!(popup.age, "No update yet");
    app.beacon_time = Some(Timestamp { secs: 10, nanos: 0 });
    assert_eq!(app.marker_popup(now).unwrap().age, "Updated 2 min ago");
    app.beacon = None;
    assert!(app.marker_popup(now).is_none());
    assert_eq!(app.selected_marker, None);
}

#[test]
fn region_is_picked_by_a_drag() {
    let mut app = app();
    app.page = Page::Settings;
    app.start_region();
    assert_eq!(app.page, Page::MapView);
    let (a, b) = (spot(1.0, 1.0), spot(50.0, 60.0));
    assert_eq!(app.drag_region(false, None, false), None);
    assert_eq!(app.drag_region(true, Some(a), false), None);
    assert_eq!(app.drag_region(false, Some(b), false), None);
    assert_eq!(
        app.select,
        RegionSelect::Picking { start: Some(a), current: Some(b) }
    );
    assert_eq!(app.drag_region(false, None, true), Some((a, b)));
    assert_eq!(app.select, RegionSelect::Picking { start: None, current: None });
    // A release with no drag before it.
    assert_eq!(app.drag_region(false, Some(b), true), None);
    app.choose_region(YOU, BEACON, 12);
    assert_eq!(app.select, RegionSelect::Confirm { a: YOU, b: BEACON, max_zoom: 14 });
    assert_eq!(app.drag_region(true, Some(a), true), None);
    app.cancel_region();
    assert_eq!(app.select, RegionSelect::Inactive);
    app.choose_region(YOU, BEACON, 12);
    assert_eq!(app.select, RegionSelect::Inactive);
}

#[test]
fn region_needs_a_cache_and_no_other_download() {
    let mut app = app();
    app.cached = false;
    app.start_region();
    assert_eq!(app.select, RegionSelect::Inactive);
    app.cached = true;
    app.downloading = true;
    app.start_region();
    assert_eq!(app.select, RegionSelect::Inactive);
    app.dismiss_download();
    app.start_region();
    assert!(app.is_selecting());
}

#[test]
fn hairline_boxes_are_ignored() {
    let is_box = |w: f32, h: f32| MyApp::is_region_box(w.to_bits(), h.to_bits());
    assert!(is_box(10.0, 10.0));
    assert!(!is_box(9.99, 100.0));
    assert!(!is_box(100.0, 9.99));
    assert!(!is_box(f32::NAN, 100.0));
}

#[test]
fn zoom_stepper_stays_on_the_layer() {
    let mut app = app();
    app.start_region();
    app.choose_region(YOU, BEACON, 200);
    let zoom = |app: &MyApp| match app.select {
        RegionSelect::Confirm { max_zoom, .. } => max_zoom,
        _ => 0,
    };
    assert_eq!(zoom(&app), 17);
    for _ in 0..5 {
        app.raise_zoom();
    }
    assert_eq!(zoom(&app), 19);
    app.press_layer();
    app.raise_zoom();
    assert_eq!(zoom(&app), 19);
    for _ in 0..30 {
        app.lower_zoom();
    }
    assert_eq!(zoom(&app), 1);
    app.cancel_region();
    app.start_region();
    app.choose_region(YOU, BEACON, 0);
    assert_eq!(zoom(&app), 2);
    app.raise_zoom();
    app.lower_zoom();
    assert_eq!(zoom(&app), 2);
}

#[test]
fn download_size_is_estimated_and_capped() {
    for count in [0u64, 1, 68, 69, 137, 10_000, u64::MAX / TILE_SIZE_ESTIMATE_KB] {
        assert_eq!(
            MyApp::region_text(count),
            format!("{count} tiles, ~{} MB", (count * TILE_SIZE_ESTIMATE_KB).div_ceil(1024).max(1))
        );
    }
    assert!(!MyApp::is_too_many(MAX_REGION_TILES));
    assert!(MyApp::is_too_many(MAX_REGION_TILES + 1));
    let mut app = app();
    app.start_region();
    assert_eq!(app.confirm_region(5), None);
    app.choose_region(YOU, BEACON, 9);
    assert!(app.can_download(10_000));
    assert!(!app.can_download(10_001));
    assert_eq!(app.confirm_region(10_001), None);
    assert_eq!(app.confirm_region(10_000), Some((YOU, BEACON, 11)));
    assert!(app.downloading);
    assert_eq!(app.select, RegionSelect::Inactive);
}

#[test]
fn download_progress_is_put_in_words() {
    let say = |done: u64, failed: u64, finished: bool| {
        let p = Progress { done, failed, total: 20, finished };
        format!("{} [{}]", p.text(), p.button())
    };
    assert_eq!(say(3, 0, false), "Offline tiles: 3/20 [Cancel]");
    assert_eq!(say(3, 2, false), "Offline tiles: 3/20 (2 failed) [Cancel]");
    assert_eq!(say(20, 0, true), "Offline tiles: all 20 done [OK]");
    assert_eq!(say(20, 4, true), "Offline tiles: done, 4 of 20 failed [OK]");
}

#[test]
fn offline_zoom_is_the_nearest_with_a_tile() {
    assert_eq!(offline_zoom(12, &vec![3, 9, 14, 19]), Some(14));
    assert_eq!(offline_zoom(12, &vec![14, 10]), Some(10));
    assert_eq!(offline_zoom(0, &vec![19, 5]), Some(5));
    assert_eq!(offline_zoom(12, &vec![3, 12, 13]), None);
    assert_eq!(offline_zoom(12, &vec![]), None);
}
