//! The sensors, the tiles, the screen, the wire and the clock: what each gives
//! for what it gets.

use crate::ble::{settings_event, BleEvent, ConfigWrite, Settings};
use crate::compass::{Sensor, SensorCall};
use crate::durations::{hour_tenths, parts_from, secs_text, single, step_from};
use crate::gps::{freshest, freshest_is_first_of_the_latest, last_known_fix, FixFilter, GpsFix};
use crate::insets::{safe_insets, ContentRect, Insets};
use crate::laws::texts::lemma_nearest;
use crate::reals::{equal, equal_single, half_even};
use crate::text::decimal;
use crate::tiles::{Attribution, MapLayer, OpenTopoMap, TileId};
use vstd::prelude::*;

verus! {

/// A sensor starts off, and knows the shortest interval that its hardware
/// delivers, which is never less than a microsecond.
pub proof fn a_sensor_starts_off(reported: i32, r: Sensor)
    requires
        call_ensures(Sensor::new, (reported,), r),
    ensures
        !r.enabled,
        r.last_sent is None,
        r.min_delay >= 1,
        reported >= 1 ==> r.min_delay == reported,
        reported < 1 ==> r.min_delay == 1,
{
}

/// A sensor is on exactly while it is wanted. It is turned on together with its
/// rate, and a new rate of a running one is set without turning it off; a rate is
/// the one that was asked for, or the hardware's fastest where that is slower.
/// Nothing that is so already is asked for again. Turned off, it forgets what it
/// sent last.
pub proof fn a_sensor_runs_while_it_is_wanted(
    sensor: &mut Sensor,
    want: bool,
    interval: i32,
    r: Vec<SensorCall>,
)
    requires
        call_ensures(Sensor::follow, (sensor, want, interval), r),
    ensures
        ({
            let (s, after) = (*old(sensor), *final(sensor));
            let rate = if interval >= s.min_delay {
                interval
            } else {
                s.min_delay
            };
            &&& after.enabled == want
            &&& after.min_delay == s.min_delay
            &&& r@.contains(SensorCall::Enable) <==> want && !s.enabled
            &&& r@.contains(SensorCall::Disable) <==> !want && s.enabled
            &&& r@.contains(SensorCall::SetRate(rate)) <==> want && (!s.enabled || s.applied_us
                != rate)
            &&& want ==> after.applied_us == rate
            &&& forall|i: int|
                0 <= i < r@.len() && (#[trigger] r@[i]) is SetRate ==> r@[i] == SensorCall::SetRate(
                    rate,
                )
            &&& want && !s.enabled ==> r@.len() == 2 && r@[0] == SensorCall::Enable
            &&& want == s.enabled ==> r@.len() <= 1 && after.last_sent == s.last_sent
            &&& !want && s.enabled ==> r@.len() == 1 && after.last_sent is None
            &&& want ==> after.last_sent == s.last_sent
        }),
{
    let s = *old(sensor);
    let rate = if interval >= s.min_delay {
        interval
    } else {
        s.min_delay
    };
    if want && !s.enabled {
        assert(r@[0] == SensorCall::Enable);
        assert(r@[1] == SensorCall::SetRate(rate));
    } else if !want && s.enabled {
        assert(r@[0] == SensorCall::Disable);
    } else if s.enabled && rate != s.applied_us {
        assert(r@[0] == SensorCall::SetRate(rate));
    }
}

/// A heading is passed on by a sensor that is on, where it is the first or has
/// moved, and is then the last one sent; otherwise nothing changes.
pub proof fn a_heading_that_moved_is_passed_on(
    sensor: &mut Sensor,
    heading: u32,
    moved: bool,
    r: bool,
)
    requires
        call_ensures(Sensor::offer, (sensor, heading, moved), r),
    ensures
        !old(sensor).enabled ==> !r,
        old(sensor).enabled && moved ==> r,
        old(sensor).enabled && old(sensor).last_sent is None ==> r,
        !moved && old(sensor).last_sent is Some ==> !r,
        r ==> final(sensor).last_sent == Some(heading),
        !r ==> final(sensor).last_sent == old(sensor).last_sent,
        final(sensor).enabled == old(sensor).enabled,
        final(sensor).applied_us == old(sensor).applied_us,
        final(sensor).min_delay == old(sensor).min_delay,
{
}

/// A sensor that is on is turned off at the end, and one that is off is left.
pub proof fn no_sensor_is_left_on(sensor: Sensor, r: Vec<SensorCall>)
    requires
        call_ensures(Sensor::shut_down, (&sensor,), r),
    ensures
        sensor.enabled ==> r@ == seq![SensorCall::Disable],
        !sensor.enabled ==> r@.len() == 0,
{
}

/// The last-known fix is one of those that are known, as it is known; none is
/// later, and none before it in the list is as late. Without any there is none.
pub proof fn the_latest_fix_is_taken(fixes: Vec<(GpsFix, i64)>, r: Option<GpsFix>, j: int)
    requires
        call_ensures(last_known_fix, (&fixes,), r),
    ensures
        fixes@.len() == 0 <==> r is None,
        r is Some ==> exists|i: int|
            0 <= i < fixes@.len() && r == Some((#[trigger] fixes@[i]).0) && (0 <= j < fixes@.len()
                ==> fixes@[j].1 <= fixes@[i].1) && (0 <= j < i ==> fixes@[j].1 < fixes@[i].1),
{
    if fixes@.len() > 0 {
        freshest_is_first_of_the_latest(fixes@);
        let i = freshest(fixes@)->0;
        assert(fixes@[i].1 >= fixes@[i].1);
    }
}

/// A fix is passed on where it is the first, or where its latitude, longitude or
/// bearing is another than that of the last one passed on; two zeros are the same
/// number.
pub proof fn a_fix_that_differs_is_passed_on(filter: &mut FixFilter, fix: GpsFix, r: bool)
    requires
        call_ensures(FixFilter::offer, (filter, fix), r),
    ensures
        old(filter).last is None ==> r,
        old(filter).last matches Some(last) ==> {
            let numbers = last.pos.lat as int % 0x8000_0000_0000_0000 <= 0x7ff0_0000_0000_0000
                && last.pos.lon as int % 0x8000_0000_0000_0000 <= 0x7ff0_0000_0000_0000 && (
            last.bearing is Some ==> (last.bearing->0) as int % 0x8000_0000 <= 0x7f80_0000);
            let zeros = last.pos.lat as int % 0x8000_0000_0000_0000 == 0 || last.pos.lon as int
                % 0x8000_0000_0000_0000 == 0 || (last.bearing is Some && (last.bearing->0) as int
                % 0x8000_0000 == 0);
            &&& numbers && last == fix ==> !r
            &&& !zeros && last != fix ==> r
            &&& last.bearing is Some != fix.bearing is Some ==> r
            &&& last.pos.lat as int % 0x8000_0000_0000_0000 != 0 && last.pos.lat != fix.pos.lat
                ==> r
            &&& last.pos.lon as int % 0x8000_0000_0000_0000 != 0 && last.pos.lon != fix.pos.lon
                ==> r
            &&& !numbers ==> r
        },
        r ==> final(filter).last == Some(fix),
        !r ==> final(filter).last == old(filter).last,
{
}

/// Whatever numbers they hold, a fix is held back exactly where it is the same as
/// the last one passed on: the same latitude, the same longitude, and the same
/// bearing or none.
pub proof fn only_the_same_fix_is_held_back(
    filter: &mut FixFilter,
    fix: GpsFix,
    last: GpsFix,
    r: bool,
    lat: bool,
    lon: bool,
    bearing: bool,
)
    requires
        call_ensures(FixFilter::offer, (filter, fix), r),
        old(filter).last == Some(last),
        call_ensures(equal, (last.pos.lat, fix.pos.lat), lat),
        call_ensures(equal, (last.pos.lon, fix.pos.lon), lon),
        match (last.bearing, fix.bearing) {
            (Some(x), Some(y)) => call_ensures(equal_single, (x, y), bearing),
            (None, None) => bearing,
            _ => !bearing,
        },
    ensures
        !r <==> lat && lon && bearing,
{
}

/// The first fix is always passed on.
pub proof fn a_filter_starts_with_nothing(r: FixFilter)
    requires
        call_ensures(FixFilter::new, (), r),
    ensures
        r.last is None,
{
}

/// The address of a tile names its zoom, column and row, in this order, under the
/// server of its layer.
pub proof fn a_tile_is_addressed_by_zoom_column_row(
    layer: MapLayer,
    tile: TileId,
    r: String,
    topo: String,
)
    requires
        call_ensures(MapLayer::tile_url, (layer, tile), r),
        call_ensures(OpenTopoMap::tile_url, (&OpenTopoMap, tile), topo),
    ensures
        ({
            let place = decimal(tile.zoom as nat) + "/"@ + decimal(tile.x as nat) + "/"@ + decimal(
                tile.y as nat,
            ) + ".png"@;
            &&& layer == MapLayer::Standard ==> r@ == "https://tile.openstreetmap.org/"@ + place
            &&& layer == MapLayer::Topo ==> r@ == "https://tile.opentopomap.org/"@ + place
            &&& topo@ == "https://tile.opentopomap.org/"@ + place
        }),
{
    let place = decimal(tile.zoom as nat) + "/"@ + decimal(tile.x as nat) + "/"@ + decimal(
        tile.y as nat,
    ) + ".png"@;
    assert(r@ =~= layer.server() + place);
    assert(topo@ =~= "https://tile.opentopomap.org/"@ + place);
}

/// The topographic layer ends two levels before the standard one, and the layer
/// button goes from each to the other.
pub proof fn the_layers_have_their_depths(layer: MapLayer, zoom: u8, other: MapLayer)
    requires
        call_ensures(MapLayer::max_zoom, (layer,), zoom),
        call_ensures(MapLayer::switched, (layer,), other),
    ensures
        layer == MapLayer::Standard ==> zoom == 19 && other == MapLayer::Topo,
        layer == MapLayer::Topo ==> zoom == 17 && other == MapLayer::Standard,
{
}

/// What the bars leave of a window is the content: margins and content together
/// are the window, where the content lies inside it. A margin is never less than
/// nothing, and without a window there is none at the far sides.
pub proof fn margins_and_content_make_the_window(
    rect: ContentRect,
    width: i32,
    height: i32,
    r: Insets,
)
    requires
        call_ensures(safe_insets, (rect, width, height), r),
    ensures
        rect.left >= 0 ==> r.left == rect.left,
        rect.top >= 0 ==> r.top == rect.top,
        rect.left < 0 ==> r.left == 0,
        rect.top < 0 ==> r.top == 0,
        0 <= rect.left <= rect.right <= width && width > 0 ==> r.left + (rect.right - rect.left)
            + r.right == width,
        0 <= rect.top <= rect.bottom <= height && height > 0 ==> r.top + (rect.bottom - rect.top)
            + r.bottom == height,
        rect.right > width || width <= 0 ==> r.right == 0,
        rect.bottom > height || height <= 0 ==> r.bottom == 0,
        width > 0 && rect.right <= width ==> r.right + rect.right == width,
        height > 0 && rect.bottom <= height ==> r.bottom + rect.bottom == height,
{
}

/// A setting is written as its number, the length of its value and the value: a
/// flag as one byte, seconds as four with the lowest first. The notify interval is
/// what the wire protocol makes of it.
pub proof fn a_write_is_number_length_value<F: Fn(u32) -> ([u8; 6], usize)>(
    write: ConfigWrite,
    interval: F,
    r: ([u8; 6], usize),
)
    requires
        call_ensures(ConfigWrite::encode, (&write, interval), r),
    ensures
        write matches ConfigWrite::Interval(ms) ==> call_ensures(interval, (ms,), r),
        write matches ConfigWrite::Flag { id, on } ==> {
            &&& r.1 == 3
            &&& r.0@[0] == id
            &&& r.0@[1] == 1
            &&& r.0@[2] == if on {
                1u8
            } else {
                0u8
            }
        },
        write matches ConfigWrite::Seconds { id, secs } ==> {
            &&& r.1 == 6
            &&& r.0@[0] == id
            &&& r.0@[1] == 4
            &&& secs == r.0@[2] + 0x100 * r.0@[3] + 0x1_0000 * r.0@[4] + 0x100_0000 * r.0@[5]
        },
{
    match write {
        ConfigWrite::Flag { id, on } => {
            let b = r.0@;
            assert(b.take(3)[0] == b[0] && b.take(3)[1] == b[1] && b.take(3)[2] == b[2]);
        },
        _ => {},
    }
}

/// Settings that decode are reported, and those that do not as unknown.
pub proof fn decoded_settings_are_reported(decoded: Option<Settings>, r: BleEvent)
    requires
        call_ensures(settings_event, (decoded,), r),
    ensures
        decoded is Some ==> r == BleEvent::Settings(decoded->0),
        decoded is None ==> r is SettingsUnsupported,
{
}

/// Nothing is off; up to a minute a duration is in seconds; up to an hour in
/// minutes, to the nearest, of two as near the even one; whole hours are in whole
/// hours.
pub proof fn a_duration_is_in_its_unit(s: u32, r: String, n: nat)
    requires
        call_ensures(secs_text, (s,), r),
    ensures
        s == 0 ==> r@ == "off"@,
        1 <= s < 60 ==> r@ == decimal(s as nat) + " s"@,
        60 <= s < 3600 && (60 * n - 30 < s < 60 * n + 30 || ((60 * n - 30 == s || s == 60 * n + 30)
            && n % 2 == 0)) ==> r@ == decimal(n) + " min"@,
        s >= 3600 && s == 3600 * n ==> r@ == decimal(n) + " h"@,
{
    if s >= 3600 && s == 3600 * n {
        assert(s % 3600 == 0);
        assert(s / 3600 == n);
    }
}

/// So many tenths, as hours with one decimal.
pub open spec fn hours_text(tenths: nat) -> Seq<char> {
    decimal(tenths / 10) + "."@ + decimal(tenths % 10) + " h"@
}

proof fn lemma_parts(n: nat)
    requires
        n < 0x100_0000,
    ensures
        parts_from(n, 3600, 0x80_0000) >= 2048,
{
    reveal_with_fuel(parts_from, 14);
}

proof fn lemma_tenths(s: nat)
    requires
        s < 0x100_0000,
    ensures
        360 * hour_tenths(s) <= s + 180,
        s <= 360 * hour_tenths(s) + 180,
{
    let p = parts_from(s, 3600, 0x80_0000);
    assert(step_from(s, 1) == 1);
    assert(half_even(s, 1) == s) by {
        lemma_nearest(s, 1);
    }
    assert(single(s) == s);
    lemma_parts(s);
    let w = half_even(s * p, 3600);
    let t = half_even(10 * w, p);
    lemma_nearest(s * p, 3600);
    lemma_nearest(10 * w, p);
    assert(t == hour_tenths(s));
    assert(p * (360 * t - s) <= 180 * p + 1800) by (nonlinear_arith)
        requires
            2 * (w * 3600 - s * p) <= 3600,
            2 * (t * p - 10 * w) <= p,
    ;
    assert(p * (s - 360 * t) <= 180 * p + 1800) by (nonlinear_arith)
        requires
            2 * (s * p - w * 3600) <= 3600,
            2 * (10 * w - t * p) <= p,
    ;
    assert(360 * t - s < 181) by (nonlinear_arith)
        requires
            p * (360 * t - s) <= 180 * p + 1800,
            p >= 2048,
    ;
    assert(s - 360 * t < 181) by (nonlinear_arith)
        requires
            p * (s - 360 * t) <= 180 * p + 1800,
            p >= 2048,
    ;
}

/// From an hour on a duration that is no whole number of hours is in hours with
/// one decimal, no farther than half a tenth of an hour from it, as long as its
/// seconds are within what single precision counts one by one.
pub proof fn hours_are_to_the_nearest_tenth(s: u32, r: String)
    requires
        call_ensures(secs_text, (s,), r),
        3600 <= s < 0x100_0000,
        s % 3600 != 0,
    ensures
        exists|tenths: nat|
            r@ == #[trigger] hours_text(tenths) && 360 * tenths <= s + 180 && s <= 360 * tenths
                + 180,
{
    lemma_tenths(s as nat);
    assert(r@ == hours_text(hour_tenths(s as nat)));
}

/// The topographic tiles are owed to their makers.
pub proof fn topographic_tiles_name_their_makers(r: Attribution, zoom: u8)
    requires
        call_ensures(OpenTopoMap::attribution, (&OpenTopoMap,), r),
        call_ensures(OpenTopoMap::max_zoom, (&OpenTopoMap,), zoom),
    ensures
        r.text@ == "OpenTopoMap (CC-BY-SA), OpenStreetMap contributors, SRTM"@,
        r.url@ == "https://opentopomap.org/about"@,
        zoom == 17,
{
}

proof fn lemma_all_parts(n: nat)
    requires
        n <= 0x1_0000_0100,
    ensures
        parts_from(n, 3600, 0x80_0000) >= 4,
{
    reveal_with_fuel(parts_from, 23);
}

proof fn lemma_held(n: nat)
    requires
        n < 0x1_0000_0000,
    ensures
        single(n) <= n + 128,
        n <= single(n) + 128,
{
    let step = step_from(n, 1);
    assert(0 < step <= 256) by {
        reveal_with_fuel(step_from, 10);
    }
    lemma_nearest(n, step);
}

/// However long it is, a duration from an hour on that is no whole number of
/// hours is in hours with one decimal, no farther than two tenths of an hour from
/// it.
pub proof fn long_durations_are_in_hours(s: u32, r: String)
    requires
        call_ensures(secs_text, (s,), r),
        3600 <= s,
        s % 3600 != 0,
    ensures
        exists|tenths: nat|
            r@ == #[trigger] hours_text(tenths) && 360 * tenths <= s + 760 && s <= 360 * tenths
                + 760,
{
    let n = single(s as nat);
    lemma_held(s as nat);
    lemma_all_parts(n);
    let p = parts_from(n, 3600, 0x80_0000);
    let w = half_even(n * p, 3600);
    let t = half_even(10 * w, p);
    lemma_nearest(n * p, 3600);
    lemma_nearest(10 * w, p);
    assert(p * (360 * t - n) <= 180 * p + 1800) by (nonlinear_arith)
        requires
            2 * (w * 3600 - n * p) <= 3600,
            2 * (t * p - 10 * w) <= p,
    ;
    assert(p * (n - 360 * t) <= 180 * p + 1800) by (nonlinear_arith)
        requires
            2 * (n * p - w * 3600) <= 3600,
            2 * (10 * w - t * p) <= p,
    ;
    assert(360 * t - n <= 630) by (nonlinear_arith)
        requires
            p * (360 * t - n) <= 180 * p + 1800,
            p >= 4,
    ;
    assert(n - 360 * t <= 630) by (nonlinear_arith)
        requires
            p * (n - 360 * t) <= 180 * p + 1800,
            p >= 4,
    ;
    assert(r@ == hours_text(t));
}

} // verus!
