//! GPS position source: which last-known fix seeds the map, and which live
//! fixes are passed on.

use crate::ble::Position;
use crate::reals::{equal, equal_single, same_number, same_single};
use vstd::prelude::*;

verus! {

/// A single GPS fix in decimal degrees.
#[derive(Clone, Copy, PartialEq, Eq, Debug, Structural)]
pub struct GpsFix {
    pub pos: Position,
    /// Course over ground: degrees clockwise from true north, as a
    /// single-precision bit pattern. Only present when moving (GPS cannot
    /// derive a bearing while stationary).
    pub bearing: Option<u32>,
}

/// Two fixes say the same: their numbers are equal.
pub open spec fn same_fix(a: GpsFix, b: GpsFix) -> bool {
    &&& same_number(a.pos.lat, b.pos.lat)
    &&& same_number(a.pos.lon, b.pos.lon)
    &&& match (a.bearing, b.bearing) {
        (Some(x), Some(y)) => same_single(x, y),
        (None, None) => true,
        _ => false,
    }
}

fn fixes_equal(a: GpsFix, b: GpsFix) -> (r: bool)
    ensures
        r == same_fix(a, b),
{
    equal(a.pos.lat, b.pos.lat) && equal(a.pos.lon, b.pos.lon) && match (a.bearing, b.bearing) {
        (Some(x), Some(y)) => equal_single(x, y),
        (None, None) => true,
        _ => false,
    }
}

/// The place of the freshest of some fixes, each with its time; of equally
/// fresh ones the first.
pub open spec fn freshest(fixes: Seq<(GpsFix, i64)>) -> Option<int>
    decreases fixes.len(),
{
    if fixes.len() == 0 {
        None
    } else {
        match freshest(fixes.drop_last()) {
            Some(i) => if fixes.last().1 > fixes[i].1 {
                Some(fixes.len() - 1)
            } else {
                Some(i)
            },
            None => Some(fixes.len() - 1),
        }
    }
}

/// No fix is fresher than the freshest, and none before it is as fresh.
pub proof fn freshest_is_first_of_the_latest(fixes: Seq<(GpsFix, i64)>)
    requires
        fixes.len() > 0,
    ensures
        freshest(fixes) is Some,
        0 <= freshest(fixes)->0 < fixes.len(),
        forall|j: int| 0 <= j < fixes.len() ==> (#[trigger] fixes[j]).1 <= fixes[freshest(fixes)->0].1,
        forall|j: int|
            0 <= j < freshest(fixes)->0 ==> (#[trigger] fixes[j]).1 < fixes[freshest(fixes)->0].1,
    decreases fixes.len(),
{
    if fixes.len() > 1 {
        let fewer = fixes.drop_last();
        freshest_is_first_of_the_latest(fewer);
        assert forall|j: int| 0 <= j < fixes.len() implies (#[trigger] fixes[j]).1
            <= fixes[freshest(fixes)->0].1 by {
            if j < fewer.len() {
                assert(fewer[j] == fixes[j]);
            }
        }
        assert forall|j: int| 0 <= j < freshest(fixes)->0 implies (#[trigger] fixes[j]).1
            < fixes[freshest(fixes)->0].1 by {
            assert(fewer[j] == fixes[j]);
        }
    } else {
        assert(freshest(fixes.drop_last()) is None);
    }
}

/// Freshest last-known location across the providers that have one cached, each
/// with its time, or `None` if none has.
pub fn last_known_fix(fixes: &Vec<(GpsFix, i64)>) -> (r: Option<GpsFix>)
    ensures
        match freshest(fixes@) {
            Some(i) => r == Some(fixes@[i].0),
            None => r is None,
        },
{
    if fixes.len() == 0 {
        return None;
    }
    let mut best: usize = 0;
    let mut i: usize = 1;
    proof {
        reveal_with_fuel(freshest, 2);
    }
    while i < fixes.len()
        invariant
            0 < i <= fixes@.len(),
            best < i,
            freshest(fixes@.take(i as int)) == Some(best as int),
        decreases fixes@.len() - i,
    {
        proof {
            assert(fixes@.take(i + 1).drop_last() =~= fixes@.take(i as int));
        }
        if fixes[i].1 > fixes[best].1 {
            best = i;
        }
        i = i + 1;
    }
    assert(fixes@.take(fixes@.len() as int) =~= fixes@);
    Some(fixes[best].0)
}

/// Passes on each fix that differs from the one before it.
pub struct FixFilter {
    pub last: Option<GpsFix>,
}

impl FixFilter {
    /// Nothing has been passed on yet.
    pub fn new() -> (r: Self)
        ensures
            r.last is None,
    {
        FixFilter { last: None }
    }

    /// Whether to pass a fix on. The last one passed on is remembered.
    pub fn offer(&mut self, fix: GpsFix) -> (r: bool)
        ensures
            r == match old(self).last {
                Some(last) => !same_fix(last, fix),
                None => true,
            },
            final(self).last == if r {
                Some(fix)
            } else {
                old(self).last
            },
    {
        let fresh: bool = match self.last {
            Some(last) => !fixes_equal(last, fix),
            None => true,
        };
        if fresh {
            self.last = Some(fix);
        }
        fresh
    }
}

} // verus!
