//! Recorded GPS points: which source produced them and when. Powers both the
//! map tracks and the searchable points list page.

use crate::ble::Position;
use crate::text::{
    ascii_lower, chars_of, contains, decimal, decimal_text, has_part, lowercase, pad_left,
    pad_right, padded_left, padded_right, to_ascii_lower, to_lowercase, trim, trimmed,
};
use vstd::prelude::*;

verus! {

/// A moment, counted from the start of the Unix epoch.
#[derive(Clone, Copy, PartialEq, Eq, Debug, Structural)]
pub struct Timestamp {
    pub secs: i64,
    pub nanos: u32,
}

impl Timestamp {
    /// Nanoseconds since the start of the Unix epoch.
    pub open spec fn total(self) -> int {
        self.secs * 1_000_000_000 + self.nanos
    }

    fn count(self) -> (r: i128)
        ensures
            r == self.total(),
    {
        self.secs as i128 * 1_000_000_000 + self.nanos as i128
    }

    /// Whether this moment is later than another.
    pub fn is_after(self, other: Timestamp) -> (r: bool)
        ensures
            r == (self.total() > other.total()),
    {
        self.count() > other.count()
    }
}

/// Where a recorded point came from.
#[derive(Clone, Copy, PartialEq, Eq, Debug, Structural)]
pub enum PointSource {
    /// The phone's own GNSS (a simulated loop on desktop).
    Phone,
    /// The ESP32-C3 BLE GPS beacon.
    Esp,
}

impl PointSource {
    /// How the source is named.
    pub open spec fn named(self) -> Seq<char> {
        match self {
            PointSource::Phone => "Central"@,
            PointSource::Esp => "esp"@,
        }
    }

    /// How the source is named in the points list and its filter.
    ///
    /// The phone is the BLE central of the link the ESP beacon sits on the far
    /// end of, which is the name it goes by everywhere else in the system.
    pub fn label(self) -> (r: &'static str)
        ensures
            r@ == self.named(),
    {
        match self {
            PointSource::Phone => "Central",
            PointSource::Esp => "esp",
        }
    }
}

/// One recorded track point.
pub struct TrackPoint {
    pub pos: Position,
    /// "lat lon" with 5 decimals (about meter precision); what the points list
    /// shows and what the search matches against.
    pub coords: String,
    pub source: PointSource,
    pub time: Timestamp,
}

/// ASCII capitals as small letters.
pub open spec fn lowered(s: Seq<char>) -> Seq<char> {
    s.map_values(|c: char| ascii_lower(c))
}

fn lower_ascii(s: &str) -> (r: String)
    ensures
        r@ == lowered(s@),
{
    let chars = chars_of(s);
    let mut r = String::new();
    let mut i: usize = 0;
    proof {
        assert(lowered(s@.take(0)) =~= r@);
    }
    while i < chars.len()
        invariant
            chars@ == s@,
            i <= chars@.len(),
            r@ == lowered(s@.take(i as int)),
        decreases chars@.len() - i,
    {
        proof {
            assert(lowered(s@.take(i + 1)) =~= lowered(s@.take(i as int)).push(
                ascii_lower(s@[i as int]),
            ));
        }
        r.push(to_ascii_lower(chars[i]));
        i = i + 1;
    }
    assert(s@.take(s@.len() as int) =~= s@);
    r
}

/// A point matches a search text.
pub open spec fn point_matches(p: TrackPoint, query: Seq<char>) -> bool {
    has_part(lowered(p.source.named()), query) || has_part(p.coords@, query)
}

impl TrackPoint {
    /// "lat lon" with 5 decimals (about meter precision); what the points
    /// list shows and what the search matches against.
    pub fn coord_text(&self) -> (r: &str)
        ensures
            r@ == self.coords@,
    {
        self.coords.as_str()
    }

    /// Substring search across the source label and the coordinates. `query`
    /// must already be lowercase; the label is folded to match, so searching is
    /// case-insensitive however the labels are capitalized.
    pub fn matches(&self, query: &str) -> (r: bool)
        ensures
            r == point_matches(*self, query@),
    {
        contains(lower_ascii(self.source.label()).as_str(), query) || contains(
            self.coord_text(),
            query,
        )
    }
}

/// Whole seconds from one moment to a later one; none where it is not later.
pub open spec fn age_secs(now: Timestamp, then: Timestamp) -> int {
    if now.total() < then.total() {
        0
    } else {
        (now.total() - then.total()) / 1_000_000_000
    }
}

/// So many seconds as a compact text.
pub open spec fn age_phrase(secs: int) -> Seq<char> {
    if secs < 60 {
        decimal(secs as nat) + " s"@
    } else if secs < 3600 {
        decimal((secs / 60) as nat) + " min"@
    } else if secs < 86400 {
        decimal((secs / 3600) as nat) + " h"@
    } else {
        decimal((secs / 86400) as nat) + " d"@
    }
}

/// The line of a point in the list.
pub open spec fn point_line(p: TrackPoint, now: Timestamp) -> Seq<char> {
    padded_right(p.source.named(), 8) + " "@ + p.coords@ + "  "@ + padded_left(
        age_phrase(age_secs(now, p.time)),
        7,
    )
}

/// The line of a point in the list. The source column is wide enough for the
/// longest label, so the coordinates stay in line.
pub fn row_text(p: &TrackPoint, now: Timestamp) -> (r: String)
    ensures
        r@ == point_line(*p, now),
{
    let mut r = pad_right(p.source.label(), 8);
    r.append(" ");
    r.append(p.coord_text());
    r.append("  ");
    r.append(pad_left(age_text(now, p.time).as_str(), 7).as_str());
    r
}

/// Compact "how long ago" text for the points list.
pub fn age_text(now: Timestamp, then: Timestamp) -> (r: String)
    ensures
        r@ == age_phrase(age_secs(now, then)),
{
    let (a, b) = (now.count(), then.count());
    let secs: i128 = if a < b {
        0
    } else {
        (a - b) / 1_000_000_000
    };
    let (n, unit): (i128, &'static str) = if secs < 60 {
        (secs, " s")
    } else if secs < 3600 {
        (secs / 60, " min")
    } else if secs < 86400 {
        (secs / 3600, " h")
    } else {
        (secs / 86400, " d")
    };
    let mut r = decimal_text(n as u64);
    r.append(unit);
    r
}

/// Source filter on the points page.
#[derive(Clone, Copy, PartialEq, Eq, Debug, Structural)]
pub enum PointFilter {
    All,
    Phone,
    Esp,
}

impl PointFilter {
    /// The filter lets points of a source through.
    pub open spec fn lets(self, source: PointSource) -> bool {
        match self {
            PointFilter::All => true,
            PointFilter::Phone => source == PointSource::Phone,
            PointFilter::Esp => source == PointSource::Esp,
        }
    }

    /// Whether the filter lets points of a source through.
    pub fn admits(self, source: PointSource) -> (r: bool)
        ensures
            r == self.lets(source),
    {
        match self {
            PointFilter::All => true,
            PointFilter::Phone => source == PointSource::Phone,
            PointFilter::Esp => source == PointSource::Esp,
        }
    }
}

/// A point is listed for a search text that is trimmed and in small letters.
pub open spec fn passes(p: TrackPoint, filter: PointFilter, query: Seq<char>) -> bool {
    filter.lets(p.source) && (query.len() == 0 || point_matches(p, query))
}

/// Of two points of the list, the one at `i` stands above the one at `j`: it is
/// newer, or as new and recorded in an earlier place.
pub open spec fn above(points: Seq<TrackPoint>, i: int, j: int) -> bool {
    points[i].time.total() > points[j].time.total() || (points[i].time.total()
        == points[j].time.total() && i < j)
}

/// `rows` lists the places of exactly the points that pass, newest first.
pub open spec fn lists_newest_first(
    rows: Seq<usize>,
    points: Seq<TrackPoint>,
    filter: PointFilter,
    query: Seq<char>,
) -> bool {
    &&& forall|k: int|
        0 <= k < rows.len() ==> 0 <= #[trigger] rows[k] < points.len() && passes(
            points[rows[k] as int],
            filter,
            query,
        )
    &&& forall|i: int|
        0 <= i < points.len() && passes(#[trigger] points[i], filter, query) ==> rows.contains(
            i as usize,
        )
    &&& forall|a: int, b: int|
        0 <= a < b < rows.len() ==> above(points, #[trigger] rows[a] as int, #[trigger] rows[b] as int)
}

/// The places of the points that pass, newest first; of equally old ones the
/// one recorded first.
fn rows_for(points: &Vec<TrackPoint>, filter: PointFilter, query: &str) -> (rows: Vec<usize>)
    ensures
        lists_newest_first(rows@, points@, filter, query@),
{
    let mut rows: Vec<usize> = Vec::new();
    let mut i: usize = 0;
    while i < points.len()
        invariant
            i <= points@.len(),
            forall|k: int|
                0 <= k < rows@.len() ==> 0 <= #[trigger] rows@[k] < i && passes(
                    points@[rows@[k] as int],
                    filter,
                    query@,
                ),
            forall|j: int|
                0 <= j < i && passes(#[trigger] points@[j], filter, query@) ==> rows@.contains(
                    j as usize,
                ),
            forall|a: int, b: int|
                0 <= a < b < rows@.len() ==> above(
                    points@,
                    #[trigger] rows@[a] as int,
                    #[trigger] rows@[b] as int,
                ),
        decreases points@.len() - i,
    {
        let p = &points[i];
        if filter.admits(p.source) && (query.is_empty() || p.matches(query)) {
            insert_row(&mut rows, points, i);
        }
        i = i + 1;
    }
    rows
}

fn insert_row(rows: &mut Vec<usize>, points: &Vec<TrackPoint>, i: usize)
    requires
        i < points@.len(),
        forall|k: int| 0 <= k < old(rows)@.len() ==> 0 <= #[trigger] old(rows)@[k] < i,
        forall|a: int, b: int|
            0 <= a < b < old(rows)@.len() ==> above(
                points@,
                #[trigger] old(rows)@[a] as int,
                #[trigger] old(rows)@[b] as int,
            ),
    ensures
        exists|at: int| 0 <= at <= old(rows)@.len() && final(rows)@ == old(rows)@.insert(at, i),
        forall|k: int| 0 <= k < final(rows)@.len() ==> 0 <= #[trigger] final(rows)@[k] <= i,
        final(rows)@.contains(i),
        forall|j: usize| old(rows)@.contains(j) ==> final(rows)@.contains(j),
        forall|k: int|
            0 <= k < final(rows)@.len() ==> #[trigger] final(rows)@[k] == i || old(rows)@.contains(
                final(rows)@[k],
            ),
        forall|a: int, b: int|
            0 <= a < b < final(rows)@.len() ==> above(
                points@,
                #[trigger] final(rows)@[a] as int,
                #[trigger] final(rows)@[b] as int,
            ),
{
    let ghost had = rows@;
    let mut at: usize = 0;
    while at < rows.len() && !points[i].time.is_after(points[rows[at]].time)
        invariant
            had == rows@,
            i < points@.len(),
            at <= rows@.len(),
            forall|k: int| 0 <= k < rows@.len() ==> 0 <= #[trigger] rows@[k] < i,
            forall|k: int|
                0 <= k < at ==> points@[i as int].time.total() <= points@[(#[trigger] rows@[k])
                    as int].time.total(),
        decreases rows@.len() - at,
    {
        at = at + 1;
    }
    rows.insert(at, i);
    proof {
        let now = rows@;
        assert(now =~= had.insert(at as int, i));
        assert(now[at as int] == i);
        assert forall|j: usize| had.contains(j) implies now.contains(j) by {
            let k = choose|k: int| 0 <= k < had.len() && had[k] == j;
            if k < at {
                assert(now[k] == j);
            } else {
                assert(now[k + 1] == j);
            }
        }
        assert forall|k: int| 0 <= k < now.len() implies #[trigger] now[k] == i || had.contains(
            now[k],
        ) by {
            if k < at {
                assert(now[k] == had[k]);
            } else if k > at {
                assert(now[k] == had[k - 1]);
            }
        }
        assert forall|a: int, b: int| 0 <= a < b < now.len() implies above(
            points@,
            #[trigger] now[a] as int,
            #[trigger] now[b] as int,
        ) by {
            if a < at && b < at {
                assert(now[a] == had[a] && now[b] == had[b]);
            } else if a < at && b == at {
                assert(now[a] == had[a]);
            } else if a < at {
                assert(now[a] == had[a] && now[b] == had[b - 1]);
            } else if a == at {
                assert(now[b] == had[b - 1]);
                if b - 1 > at {
                    assert(above(points@, had[at as int] as int, had[b - 1] as int));
                }
            } else {
                assert(now[a] == had[a - 1] && now[b] == had[b - 1]);
            }
        }
    }
}

/// The points page's list: the places of the listed points, newest first, the
/// tracks interleaved by record time.
pub fn point_rows(points: &Vec<TrackPoint>, filter: PointFilter, search: &str) -> (rows: Vec<usize>)
    ensures
        lists_newest_first(rows@, points@, filter, lowercase(trimmed(search@))),
{
    let query = to_lowercase(trim(search).as_str());
    rows_for(points, filter, query.as_str())
}

/// A list is one list: two lists of the same points under the same filter and
/// search have the same rows.
pub proof fn one_list_per_search(
    a: Seq<usize>,
    b: Seq<usize>,
    points: Seq<TrackPoint>,
    filter: PointFilter,
    query: Seq<char>,
)
    requires
        points.len() <= usize::MAX,
        lists_newest_first(a, points, filter, query),
        lists_newest_first(b, points, filter, query),
    ensures
        a == b,
    decreases a.len(),
{
    lemma_same_rows(a, b, points, filter, query, 0);
}

proof fn lemma_same_rows(
    a: Seq<usize>,
    b: Seq<usize>,
    points: Seq<TrackPoint>,
    filter: PointFilter,
    query: Seq<char>,
    n: int,
)
    requires
        points.len() <= usize::MAX,
        lists_newest_first(a, points, filter, query),
        lists_newest_first(b, points, filter, query),
        0 <= n <= a.len(),
        n <= b.len(),
        forall|k: int| 0 <= k < n ==> #[trigger] a[k] == b[k],
    ensures
        a == b,
    decreases a.len() - n,
{
    if n < a.len() && n < b.len() {
        // Each list holds the other's next row, and holds it no earlier.
        assert(passes(points[a[n] as int], filter, query));
        assert(b.contains(a[n] as int as usize));
        let p = choose|p: int| 0 <= p < b.len() && b[p] == a[n];
        assert(passes(points[b[n] as int], filter, query));
        assert(a.contains(b[n] as int as usize));
        let q = choose|q: int| 0 <= q < a.len() && a[q] == b[n];
        if p < n {
            assert(a[p] == b[p]);
            assert(above(points, a[p] as int, a[n] as int));
        }
        if q < n {
            assert(a[q] == b[q]);
            assert(above(points, b[q] as int, b[n] as int));
        }
        if a[n] != b[n] {
            assert(above(points, b[n] as int, b[p] as int));
            assert(above(points, a[n] as int, a[q] as int));
        }
        lemma_same_rows(a, b, points, filter, query, n + 1);
    } else if n < a.len() {
        assert(passes(points[a[n] as int], filter, query));
        assert(b.contains(a[n] as int as usize));
        let p = choose|p: int| 0 <= p < b.len() && b[p] == a[n];
        assert(a[p] == b[p]);
        assert(above(points, a[p] as int, a[n] as int));
    } else if n < b.len() {
        assert(passes(points[b[n] as int], filter, query));
        assert(a.contains(b[n] as int as usize));
        let q = choose|q: int| 0 <= q < a.len() && a[q] == b[n];
        assert(a[q] == b[q]);
        assert(above(points, b[q] as int, b[n] as int));
    } else {
        assert(a =~= b);
    }
}

} // verus!
