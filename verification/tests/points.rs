//! Recorded points and their list.

use gps_gui_rs::ble::Position;
use gps_gui_rs::points::{
    age_text, point_rows, row_text, PointFilter, PointSource, Timestamp, TrackPoint,
};

fn at(secs: i64) -> Timestamp {
    Timestamp { secs, nanos: 0 }
}

fn point_at(source: PointSource, secs: i64) -> TrackPoint {
    let (lat, lon) = (51.4779f64, -0.0015f64);
    TrackPoint {
        pos: Position { lat: lat.to_bits(), lon: lon.to_bits() },
        coords: format!("{lat:.5} {lon:.5}"),
        source,
        time: at(secs),
    }
}

fn point(source: PointSource) -> TrackPoint {
    point_at(source, 0)
}

#[test]
fn search_matches_source_and_coordinates() {
    let p = point(PointSource::Esp);
    assert!(p.matches(""));
    assert!(p.matches("esp"));
    assert!(p.matches("51.477"));
    assert!(p.matches("-0.0015"));
    assert!(!p.matches("central"));
    assert!(!p.matches("52."));
}

#[test]
fn source_search_ignores_label_case() {
    // The query arrives lowercased; a capitalized label still matches.
    assert!(point(PointSource::Phone).matches("central"));
}

#[test]
fn ages_scale_units() {
    let base = at(0);
    assert_eq!(age_text(at(5), base), "5 s");
    assert_eq!(age_text(at(120), base), "2 min");
    assert_eq!(age_text(at(7200), base), "2 h");
    assert_eq!(age_text(at(200_000), base), "2 d");
    // Clock skew must not panic.
    assert_eq!(age_text(base, at(5)), "0 s");
}

#[test]
fn ages_count_whole_seconds() {
    let a = Timestamp { secs: 10, nanos: 999_999_999 };
    let b = Timestamp { secs: 9, nanos: 1_000 };
    assert_eq!(age_text(a, b), "1 s");
    assert_eq!(age_text(Timestamp { secs: 10, nanos: 0 }, b), "0 s");
    assert_eq!(age_text(at(59), at(0)), "59 s");
    assert_eq!(age_text(at(3599), at(0)), "59 min");
    assert_eq!(age_text(at(86_399), at(0)), "23 h");
    assert_eq!(age_text(at(i64::MAX), at(i64::MIN)), "213503982334601 d");
}

#[test]
fn sources_go_by_their_labels() {
    assert_eq!(PointSource::Phone.label(), "Central");
    assert_eq!(PointSource::Esp.label(), "esp");
    assert!(PointFilter::All.admits(PointSource::Esp));
    assert!(PointFilter::Phone.admits(PointSource::Phone));
    assert!(!PointFilter::Phone.admits(PointSource::Esp));
    assert!(!PointFilter::Esp.admits(PointSource::Phone));
}

#[test]
fn rows_are_newest_first_and_stable() {
    let points = vec![
        point_at(PointSource::Phone, 5),
        point_at(PointSource::Phone, 9),
        point_at(PointSource::Esp, 9),
        point_at(PointSource::Esp, 7),
        point_at(PointSource::Phone, 5),
    ];
    assert_eq!(point_rows(&points, PointFilter::All, ""), [1, 2, 3, 0, 4]);
    assert_eq!(point_rows(&points, PointFilter::Esp, ""), [2, 3]);
    assert_eq!(point_rows(&points, PointFilter::All, "  CENTRAL "), [1, 0, 4]);
    assert_eq!(point_rows(&points, PointFilter::Esp, "central"), Vec::<usize>::new());
    assert_eq!(point_rows(&points, PointFilter::Phone, " 51.4 "), [1, 0, 4]);
    assert_eq!(point_rows(&Vec::new(), PointFilter::All, ""), Vec::<usize>::new());
}

/// The search text is lower-cased as a whole, beyond ASCII too.
#[test]
fn search_text_is_lower_cased() {
    let mut p = point(PointSource::Phone);
    p.coords = "ärger".to_string();
    assert_eq!(point_rows(&vec![p], PointFilter::All, "ÄRGER"), [0]);
}

#[test]
fn rows_read_in_columns() {
    let p = point_at(PointSource::Esp, 100);
    assert_eq!(row_text(&p, at(105)), format!("{:<8} {}  {:>7}", "esp", p.coord_text(), "5 s"));
    let p = point_at(PointSource::Phone, 0);
    assert_eq!(
        row_text(&p, at(86_400 * 12_345_678)),
        format!("{:<8} {}  {:>7}", "Central", p.coord_text(), "12345678 d")
    );
}

#[test]
fn moments_are_in_order() {
    let a = Timestamp { secs: -1, nanos: 999_999_999 };
    assert!(at(0).is_after(a));
    assert!(!a.is_after(at(0)));
    assert!(!a.is_after(a));
}
