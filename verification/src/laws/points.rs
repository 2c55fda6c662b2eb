//! The points list: what a search finds, and in which order.

use crate::app::MyApp;
use crate::points::{
    age_text, lowered, point_rows, row_text, PointFilter, PointSource, Timestamp, TrackPoint,
};
use crate::text::{decimal, has_part, lowercase, stands_at, trimmed};
use vstd::prelude::*;

verus! {

/// A text occurs somewhere inside another.
pub open spec fn occurs(part: Seq<char>, text: Seq<char>) -> bool {
    exists|i: int|
        0 <= i <= text.len() - part.len() && #[trigger] text.subrange(i, i + part.len()) == part
}

/// The name that a source is searched by.
pub open spec fn search_name(source: PointSource) -> Seq<char> {
    match source {
        PointSource::Phone => "central"@,
        PointSource::Esp => "esp"@,
    }
}

proof fn lemma_parts_occur(text: Seq<char>, part: Seq<char>)
    ensures
        has_part(text, part) <==> occurs(part, text),
{
    if has_part(text, part) {
        let i = choose|i: int| stands_at(text, part, i);
        assert(text.subrange(i, i + part.len()) =~= part);
    }
    if occurs(part, text) {
        let i = choose|i: int|
            0 <= i <= text.len() - part.len() && #[trigger] text.subrange(i, i + part.len())
                == part;
        assert forall|j: int| 0 <= j < part.len() implies text[i + j] == part[j] by {
            assert(text.subrange(i, i + part.len())[j] == text[i + j]);
        }
        assert(stands_at(text, part, i));
    }
}

proof fn lemma_search_names(source: PointSource)
    ensures
        lowered(source.named()) == search_name(source),
{
    reveal_strlit("Central");
    reveal_strlit("central");
    reveal_strlit("esp");
    assert(lowered(source.named()) =~= search_name(source));
}

/// A search is a substring search: a point matches exactly the texts that occur
/// somewhere inside the small-letter name of its source, or inside its
/// coordinates.
pub proof fn a_search_finds_every_part(p: TrackPoint, query: &str, r: bool)
    requires
        call_ensures(TrackPoint::matches, (&p, query), r),
    ensures
        r <==> occurs(query@, search_name(p.source)) || occurs(query@, p.coords@),
{
    lemma_search_names(p.source);
    lemma_parts_occur(search_name(p.source), query@);
    lemma_parts_occur(p.coords@, query@);
}

/// The points list holds exactly the points that the filter lets through and
/// that the search finds anywhere in their source or coordinates, every one of
/// them when nothing is searched for. Blanks around the search text and its
/// capitals do not count.
pub proof fn the_list_is_what_was_searched_for(
    points: Vec<TrackPoint>,
    filter: PointFilter,
    search: &str,
    rows: Vec<usize>,
    i: usize,
)
    requires
        call_ensures(point_rows, (&points, filter, search), rows),
        i < points@.len(),
    ensures
        ({
            let p = points@[i as int];
            let query = lowercase(trimmed(search@));
            rows@.contains(i) <==> (filter == PointFilter::All || (filter == PointFilter::Phone
                && p.source == PointSource::Phone) || (filter == PointFilter::Esp && p.source
                == PointSource::Esp)) && (query.len() == 0 || occurs(query, search_name(p.source))
                || occurs(query, p.coords@))
        }),
{
    let p = points@[i as int];
    let query = lowercase(trimmed(search@));
    lemma_search_names(p.source);
    lemma_parts_occur(search_name(p.source), query);
    lemma_parts_occur(p.coords@, query);
    assert(i as int as usize == i);
    if rows@.contains(i) {
        let k = choose|k: int| 0 <= k < rows@.len() && rows@[k] == i;
        assert(rows@[k] < points@.len());
    }
}

/// The points list shows no point twice and runs from the newest to the oldest,
/// points of one moment in the order they were recorded in.
pub proof fn the_list_runs_from_new_to_old(
    points: Vec<TrackPoint>,
    filter: PointFilter,
    search: &str,
    rows: Vec<usize>,
    a: int,
    b: int,
)
    requires
        call_ensures(point_rows, (&points, filter, search), rows),
        0 <= a < b < rows@.len(),
    ensures
        rows@[a] != rows@[b],
        ({
            let upper = points@[rows@[a] as int].time;
            let lower = points@[rows@[b] as int].time;
            &&& upper.secs * 1_000_000_000 + upper.nanos >= lower.secs * 1_000_000_000 + lower.nanos
            &&& upper.secs * 1_000_000_000 + upper.nanos == lower.secs * 1_000_000_000 + lower.nanos
                ==> rows@[a] < rows@[b]
        }),
{
}

/// The points page shows the phone's points and the beacon's, each as it was
/// recorded, and lists every one of them that is wanted.
pub proof fn the_page_shows_both_tracks(app: MyApp, r: (Vec<TrackPoint>, Vec<usize>), i: int)
    requires
        call_ensures(MyApp::points_page, (&app,), r),
        0 <= i < app.track@.len() + app.beacon_track@.len() <= usize::MAX,
    ensures
        r.0@.len() == app.track@.len() + app.beacon_track@.len(),
        ({
            let p = r.0@[i];
            let query = lowercase(trimmed(app.points_search@));
            &&& i < app.track@.len() ==> p == app.track@[i]
            &&& i >= app.track@.len() ==> p == app.beacon_track@[i - app.track@.len()]
            &&& app.points_filter == PointFilter::All && query.len() == 0 ==> r.1@.contains(
                i as usize,
            )
            &&& app.points_filter == PointFilter::Phone && p.source == PointSource::Esp
                ==> !r.1@.contains(i as usize)
            &&& app.points_filter == PointFilter::Esp && p.source == PointSource::Phone
                ==> !r.1@.contains(i as usize)
            &&& query.len() > 0 && !occurs(query, search_name(p.source)) && !occurs(
                query,
                p.coords@,
            ) ==> !r.1@.contains(i as usize)
            &&& app.points_filter == PointFilter::All && (occurs(query, search_name(p.source))
                || occurs(query, p.coords@)) ==> r.1@.contains(i as usize)
        }),
        forall|a: int, b: int|
            0 <= a < b < r.1@.len() ==> #[trigger] r.1@[a] != #[trigger] r.1@[b] && r.0@[r.1@[a]
                as int].time.secs * 1_000_000_000 + r.0@[r.1@[a] as int].time.nanos
                >= r.0@[r.1@[b] as int].time.secs * 1_000_000_000
                + r.0@[r.1@[b] as int].time.nanos,
{
    let p = r.0@[i];
    let query = lowercase(trimmed(app.points_search@));
    lemma_search_names(p.source);
    lemma_parts_occur(search_name(p.source), query);
    lemma_parts_occur(p.coords@, query);
    if r.1@.contains(i as usize) {
        let k = choose|k: int| 0 <= k < r.1@.len() && r.1@[k] == i as usize;
        assert(r.1@[k] < r.0@.len());
    }
}

/// A filter lets its own source through and no other; All lets both through.
pub proof fn a_filter_keeps_its_source(filter: PointFilter, source: PointSource, r: bool)
    requires
        call_ensures(PointFilter::admits, (filter, source), r),
    ensures
        filter == PointFilter::All ==> r,
        filter == PointFilter::Phone ==> (r <==> source == PointSource::Phone),
        filter == PointFilter::Esp ==> (r <==> source == PointSource::Esp),
{
}

/// A moment is later than another by its seconds first, then by its nanoseconds.
pub proof fn later_is_by_seconds_then_nanoseconds(a: Timestamp, b: Timestamp, r: bool)
    requires
        call_ensures(Timestamp::is_after, (a, b), r),
        a.nanos < 1_000_000_000,
        b.nanos < 1_000_000_000,
    ensures
        r <==> a.secs > b.secs || (a.secs == b.secs && a.nanos > b.nanos),
{
}

/// An age is shown in the largest unit of which it holds a whole one, counted
/// in whole ones: seconds up to a minute, minutes up to an hour, hours up to a
/// day, then days. A moment still to come counts as now.
pub proof fn an_age_is_in_whole_units(now: Timestamp, then: Timestamp, r: String)
    requires
        call_ensures(age_text, (now, then), r),
    ensures
        ({
            let past = (now.secs - then.secs) * 1_000_000_000 + now.nanos - then.nanos;
            &&& past < 1_000_000_000 ==> r@ == decimal(0) + " s"@
            &&& past >= 0 ==> forall|n: nat|
                {
                    &&& n * 1_000_000_000 <= past < (n + 1) * 1_000_000_000 && n < 60 ==> r@
                        == #[trigger] decimal(n) + " s"@
                    &&& 1 <= n < 60 && n * 60_000_000_000 <= past < (n + 1) * 60_000_000_000
                        ==> r@ == decimal(n) + " min"@
                    &&& 1 <= n < 24 && n * 3_600_000_000_000 <= past < (n + 1)
                        * 3_600_000_000_000 ==> r@ == decimal(n) + " h"@
                    &&& 1 <= n && n * 86_400_000_000_000 <= past < (n + 1) * 86_400_000_000_000
                        ==> r@ == decimal(n) + " d"@
                }
        }),
{
}

/// The line of a point starts with its source, holds its coordinates in the
/// same column whatever the source, and ends with its age.
pub proof fn a_line_keeps_its_columns(p: TrackPoint, now: Timestamp, age: String, r: String)
    requires
        call_ensures(row_text, (&p, now), r),
        call_ensures(age_text, (now, p.time), age),
    ensures
        p.source == PointSource::Phone ==> r@.take(9) == "Central  "@,
        p.source == PointSource::Esp ==> r@.take(9) == "esp      "@,
        r@.len() >= 9 + p.coords@.len(),
        r@.subrange(9, 9 + p.coords@.len() as int) == p.coords@,
        r@.len() == 9 + p.coords@.len() + 2 + if age@.len() < 7 {
            7
        } else {
            age@.len()
        },
        r@.skip(r@.len() - age@.len()) == age@,
        forall|i: int|
            9 + p.coords@.len() <= i < r@.len() - age@.len() ==> #[trigger] r@[i] == ' ',
{
    reveal_strlit("Central");
    reveal_strlit("Central  ");
    reveal_strlit("esp");
    reveal_strlit("esp      ");
    reveal_strlit(" ");
    reveal_strlit("  ");
    assert(r@.subrange(9, 9 + p.coords@.len() as int) =~= p.coords@);
    assert(r@.skip(r@.len() - age@.len()) =~= age@);
    if p.source == PointSource::Phone {
        assert(r@.take(9) =~= "Central  "@);
    } else {
        assert(r@.take(9) =~= "esp      "@);
    }
}

/// Every recorded point is among all points, as it was recorded: the phone's
/// first, then the beacon's, each in their order. A source goes by its name, and a
/// point's coordinates are those it was recorded with.
pub proof fn all_points_are_both_tracks(
    app: MyApp,
    r: Vec<TrackPoint>,
    i: int,
    p: TrackPoint,
    name: &str,
    coords: &str,
)
    requires
        call_ensures(MyApp::all_points, (&app,), r),
        call_ensures(PointSource::label, (p.source,), name),
        call_ensures(TrackPoint::coord_text, (&p,), coords),
    ensures
        r@.len() == app.track@.len() + app.beacon_track@.len(),
        0 <= i < app.track@.len() ==> r@[i] == app.track@[i],
        0 <= i < app.beacon_track@.len() ==> r@[app.track@.len() + i] == app.beacon_track@[i],
        p.source == PointSource::Phone ==> name@ == "Central"@,
        p.source == PointSource::Esp ==> name@ == "esp"@,
        coords@ == p.coords@,
{
}

} // verus!
