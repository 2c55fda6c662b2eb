//! The phone's own sources: GPS fixes, the compass, the system bars, and the
//! map tiles.

use gps_gui_rs::ble::Position;
use gps_gui_rs::compass::{Sensor, SensorCall};
use gps_gui_rs::gps::{last_known_fix, FixFilter, GpsFix};
use gps_gui_rs::insets::{safe_insets, ContentRect, Insets};
use gps_gui_rs::tiles::{MapLayer, OpenTopoMap, TileId};
use walkers::sources::{OpenStreetMap, TileSource};

fn fix(lat: f64, bearing: Option<f32>) -> GpsFix {
    GpsFix {
        pos: Position { lat: lat.to_bits(), lon: 1.5f64.to_bits() },
        bearing: bearing.map(f32::to_bits),
    }
}

#[test]
fn freshest_fix_seeds_the_map() {
    assert_eq!(last_known_fix(&Vec::new()), None);
    let fixes = vec![
        (fix(1.0, None), -5),
        (fix(2.0, None), 70),
        (fix(3.0, Some(9.0)), 70),
        (fix(4.0, None), 69),
    ];
    assert_eq!(last_known_fix(&fixes), Some(fix(2.0, None)));
    assert_eq!(last_known_fix(&vec![(fix(1.0, None), i64::MIN)]), Some(fix(1.0, None)));
}

#[test]
fn only_a_changed_fix_is_passed_on() {
    let mut filter = FixFilter::new();
    assert!(filter.offer(fix(1.0, None)));
    assert!(!filter.offer(fix(1.0, None)));
    assert!(filter.offer(fix(1.0, Some(0.0))));
    assert!(!filter.offer(fix(1.0, Some(-0.0))));
    assert!(filter.offer(fix(2.0, Some(0.0))));
    assert!(filter.offer(fix(f64::NAN, None)));
    // What is no number differs from itself.
    assert!(filter.offer(fix(f64::NAN, None)));
}

#[test]
fn sensor_runs_only_while_wanted() {
    let mut s = Sensor::new(5_000);
    assert!(s.follow(false, 16_666).is_empty());
    assert!(!s.offer(1, true));
    assert_eq!(s.follow(true, 16_666), [SensorCall::Enable, SensorCall::SetRate(16_666)]);
    assert!(s.follow(true, 16_666).is_empty());
    assert!(s.offer(1, false));
    assert!(!s.offer(2, false));
    assert!(s.offer(2, true));
    assert_eq!(s.last_sent, Some(2));
    // Faster than the hardware.
    assert_eq!(s.follow(true, 1), [SensorCall::SetRate(5_000)]);
    assert_eq!(s.shut_down(), [SensorCall::Disable]);
    assert_eq!(s.follow(false, 1), [SensorCall::Disable]);
    assert_eq!(s.last_sent, None);
    assert!(s.shut_down().is_empty());
    assert_eq!(Sensor::new(0).min_delay, 1);
    assert_eq!(Sensor::new(-7).min_delay, 1);
}

#[test]
fn insets_are_what_the_bars_take() {
    let rect = ContentRect { left: 0, top: 80, right: 1080, bottom: 2200 };
    assert_eq!(
        safe_insets(rect, 1080, 2340),
        Insets { top: 80, right: 0, bottom: 140, left: 0 }
    );
    // No window yet.
    assert_eq!(safe_insets(rect, 0, 0), Insets { top: 80, right: 0, bottom: 0, left: 0 });
    let odd = ContentRect { left: -3, top: -1, right: i32::MIN, bottom: 9 };
    assert_eq!(
        safe_insets(odd, i32::MAX, 4),
        Insets { top: 0, right: u32::MAX, bottom: 0, left: 0 }
    );
}

#[test]
fn tiles_of_the_layers_have_their_own_urls() {
    let tile = TileId { x: 33, y: 4_294_967_295, zoom: 7 };
    assert_eq!(
        MapLayer::Standard.tile_url(tile),
        "https://tile.openstreetmap.org/7/33/4294967295.png"
    );
    assert_eq!(
        MapLayer::Topo.tile_url(tile),
        "https://tile.opentopomap.org/7/33/4294967295.png"
    );
    assert_eq!(
        MapLayer::Standard.tile_url(tile),
        OpenStreetMap.tile_url(walkers::TileId { x: 33, y: 4_294_967_295, zoom: 7 })
    );
    assert_eq!(MapLayer::Standard.max_zoom(), 19);
    assert_eq!(MapLayer::Topo.max_zoom(), 17);
    assert_eq!(MapLayer::Standard.switched(), MapLayer::Topo);
    assert_eq!(MapLayer::Standard.switched().switched(), MapLayer::Standard);
    let owed = OpenTopoMap.attribution();
    assert_eq!(owed.text, "OpenTopoMap (CC-BY-SA), OpenStreetMap contributors, SRTM");
    assert_eq!(owed.url, "https://opentopomap.org/about");
}
