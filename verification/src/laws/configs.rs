//! The settings: what a file's values come to, and how boards are named and
//! found.

use crate::config::{
    hex, is_hex_color, names_given, parse_hex, parse_size, skip_hash, AppConfig, BleSettings,
    DistanceUnits, RawConfig, RawSize, Rgb,
};
use crate::names::{in_pairs, mac_digits, normal_mac, normalize_mac};
use crate::text::{is_hex_digit, lowercase, opt_text, quoted, spells, trim, trimmed};
use vstd::prelude::*;

verus! {

/// A capital hexadecimal digit.
pub open spec fn is_capital_digit(c: char) -> bool {
    48 <= c as int <= 57 || 65 <= c as int <= 70
}

proof fn lemma_pairs(digits: Seq<char>)
    ensures
        ({
            let r = in_pairs(digits);
            &&& digits.len() == 0 ==> r.len() == 0
            &&& digits.len() > 0 ==> r.len() == digits.len() + (digits.len() - 1) / 2
            &&& forall|i: int|
                0 <= i < r.len() ==> #[trigger] r[i] == if i % 3 == 2 {
                    ':'
                } else {
                    digits[i - i / 3]
                }
        }),
    decreases digits.len(),
{
    let r = in_pairs(digits);
    if digits.len() > 2 {
        let rest = in_pairs(digits.skip(2));
        lemma_pairs(digits.skip(2));
        assert forall|i: int| 0 <= i < r.len() implies #[trigger] r[i] == if i % 3 == 2 {
            ':'
        } else {
            digits[i - i / 3]
        } by {
            if i >= 3 {
                assert(r[i] == rest[i - 3]);
                assert((i - 3) % 3 == i % 3);
                assert((i - 3) / 3 == i / 3 - 1);
                if i % 3 != 2 {
                    let k = (i - 3) - (i - 3) / 3;
                    assert(digits.skip(2)[k] == digits[k + 2]);
                }
            }
        }
    }
}

proof fn lemma_digits_are_capital(mac: Seq<char>)
    ensures
        forall|i: int|
            0 <= i < mac_digits(mac).len() ==> is_capital_digit(#[trigger] mac_digits(mac)[i]),
    decreases mac.len(),
{
    if mac.len() > 0 {
        lemma_digits_are_capital(mac.drop_last());
        let c = mac.last();
        let before = mac_digits(mac.drop_last());
        if is_hex_digit(c) {
            assert(is_capital_digit(crate::text::ascii_upper(c)));
        }
        assert forall|i: int| 0 <= i < mac_digits(mac).len() implies is_capital_digit(
            #[trigger] mac_digits(mac)[i],
        ) by {
            if i < before.len() {
                assert(is_capital_digit(before[i]));
            }
        }
    }
}

/// The key of an address is made of pairs of capital hexadecimal digits with
/// colons between them.
pub proof fn a_key_is_pairs_of_capital_digits(mac: &str, r: String)
    requires
        call_ensures(normalize_mac, (mac,), r),
    ensures
        forall|i: int|
            0 <= i < r@.len() ==> if i % 3 == 2 {
                #[trigger] r@[i] == ':'
            } else {
                is_capital_digit(r@[i])
            },
        r@.len() > 0 ==> r@.len() % 3 != 0,
{
    let digits = mac_digits(mac@);
    lemma_pairs(digits);
    lemma_digits_are_capital(mac@);
    if digits.len() > 0 {
        assert(r@.len() % 3 != 0) by {
            let n = digits.len() as int;
            assert((n + (n - 1) / 2) % 3 != 0) by (nonlinear_arith)
                requires
                    n > 0,
            ;
        }
        assert forall|i: int| 0 <= i < r@.len() implies if i % 3 == 2 {
            #[trigger] r@[i] == ':'
        } else {
            is_capital_digit(r@[i])
        } by {
            if i % 3 != 2 {
                let k = i - i / 3;
                assert(0 <= k < digits.len()) by (nonlinear_arith)
                    requires
                        k == i - i / 3,
                        i % 3 != 2,
                        0 <= i < digits.len() + (digits.len() - 1) / 2,
                        digits.len() > 0,
                ;
                assert(is_capital_digit(digits[k]));
            }
        }
    }
}

/// The key of an address grows with the address, digit by digit: a hexadecimal
/// digit of either case adds its capital, behind a colon where a pair is full,
/// and any other character adds nothing. Nothing spells nothing.
pub proof fn a_key_grows_with_its_digits(
    mac: &str,
    longer: &str,
    c: char,
    r: String,
    s: String,
)
    requires
        call_ensures(normalize_mac, (mac,), r),
        call_ensures(normalize_mac, (longer,), s),
        longer@ == mac@.push(c),
    ensures
        mac@.len() == 0 ==> r@.len() == 0,
        ({
            let n = c as int;
            let capital = if 97 <= n <= 102 {
                (n - 32) as char
            } else {
                c
            };
            if 48 <= n <= 57 || 65 <= n <= 70 || 97 <= n <= 102 {
                s@ == if r@.len() % 3 == 2 {
                    r@.push(':').push(capital)
                } else {
                    r@.push(capital)
                }
            } else {
                s@ == r@
            }
        }),
{
    assert(longer@.drop_last() =~= mac@);
    let digits = mac_digits(mac@);
    let more = mac_digits(longer@);
    lemma_pairs(digits);
    lemma_pairs(more);
    if is_hex_digit(c) {
        let n = digits.len() as int;
        assert(more == digits.push(crate::text::ascii_upper(c)));
        let expected = if r@.len() % 3 == 2 {
            r@.push(':').push(more.last())
        } else {
            r@.push(more.last())
        };
        if n > 0 {
            assert(r@.len() == n + (n - 1) / 2);
            assert(s@.len() == n + 1 + n / 2);
            assert(r@.len() % 3 == 2 <==> n % 2 == 0) by {
                let h = (n - 1) / 2;
                if n % 2 == 0 {
                    assert(n == 2 * h + 2);
                    assert(r@.len() == 3 * h + 2);
                } else {
                    assert(n == 2 * h + 1);
                    assert(r@.len() == 3 * h + 1);
                }
            }
        }
        assert(s@.len() == expected.len());
        assert forall|i: int| 0 <= i < s@.len() implies s@[i] == expected[i] by {
            if i < r@.len() {
                if i % 3 != 2 {
                    let k = i - i / 3;
                    assert(0 <= k < n) by (nonlinear_arith)
                        requires
                            k == i - i / 3,
                            i % 3 != 2,
                            0 <= i < n + (n - 1) / 2,
                            n > 0,
                    ;
                    assert(more[k] == digits[k]);
                }
            } else {
                let h = n / 2;
                if n % 2 == 0 && n > 0 {
                    assert(n == 2 * h);
                    assert(r@.len() == 3 * h - 1);
                    assert(s@.len() == 3 * h + 1);
                    if i == 3 * h - 1 {
                        assert(i % 3 == 2);
                    } else {
                        assert(i == 3 * h);
                        assert(i % 3 == 0 && i / 3 == h);
                    }
                } else if n > 0 {
                    assert(n == 2 * h + 1);
                    assert(r@.len() == 3 * h + 1);
                    assert(i == 3 * h + 1);
                    assert(i % 3 == 1 && i / 3 == h);
                }
            }
        }
        assert(s@ =~= expected);
    }
}

/// A board that was named is found under that name, without the blanks around
/// it, by any address with the same key, and is labelled with it; a blank name
/// forgets the board. Every other board keeps its name, and no other setting
/// changes.
pub proof fn a_named_board_is_found(
    ble: &mut BleSettings,
    mac: &str,
    name: &str,
    other: &str,
    key: String,
    other_key: String,
    shown: String,
    before: Option<&str>,
    after: BleSettings,
    r: Option<&str>,
    label: String,
)
    requires
        call_ensures(BleSettings::set_name, (ble, mac, name), ()),
        call_ensures(normalize_mac, (mac,), key),
        call_ensures(normalize_mac, (other,), other_key),
        call_ensures(trim, (name,), shown),
        call_ensures(BleSettings::name_of, (&*old(ble), other), before),
        after == *final(ble),
        call_ensures(BleSettings::name_of, (&after, other), r),
        call_ensures(BleSettings::label_of, (&after, other), label),
    ensures
        key@ == other_key@ && shown@.len() > 0 ==> r is Some && (r->0)@ == shown@ && label@
            == shown@,
        key@ == other_key@ && shown@.len() == 0 ==> r is None && label@ == other@,
        key@ != other_key@ ==> (r is Some <==> before is Some) && (r is Some ==> (r->0)@ == (
        before->0)@),
        r is Some ==> label@ == (r->0)@,
        r is None ==> label@ == other@,
        final(ble).mac == old(ble).mac,
        final(ble).enabled == old(ble).enabled,
        final(ble).show_path == old(ble).show_path,
{
}

/// A board is the pinned one where its address has the key of the pin; with no
/// pin none is.
pub proof fn the_pin_is_found_by_its_key(
    ble: BleSettings,
    mac: &str,
    pin: &str,
    key: String,
    pinned: String,
    r: bool,
)
    requires
        call_ensures(BleSettings::is_selected, (&ble, mac), r),
        call_ensures(normalize_mac, (mac,), key),
        call_ensures(normalize_mac, (pin,), pinned),
        opt_text(ble.mac) == Some(pin@) || ble.mac is None,
    ensures
        ble.mac is None ==> !r,
        ble.mac is Some ==> (r <==> key@ == pinned@),
{
}

/// The number of a hexadecimal digit, of either case.
pub open spec fn digit_number(c: char) -> int {
    let n = c as int;
    if 48 <= n <= 57 {
        n - 48
    } else if 65 <= n <= 70 {
        n - 65 + 10
    } else {
        n - 97 + 10
    }
}

/// A hexadecimal digit, of either case.
pub open spec fn is_hex(c: char) -> bool {
    let n = c as int;
    48 <= n <= 57 || 65 <= n <= 70 || 97 <= n <= 102
}

/// A color is six hexadecimal digits with or without a hash sign before them,
/// blanks around them aside: two digits for red, two for green, two for blue, the
/// higher first. Nothing else is a color.
pub proof fn a_color_is_six_digits(s: &str, text: String, r: Result<Rgb, String>)
    requires
        call_ensures(parse_hex, (s,), r),
        call_ensures(trim, (s,), text),
    ensures
        ({
            let from: int = if text@.len() > 0 && text@[0] == '#' {
                1
            } else {
                0
            };
            let good = text@.len() == from + 6 && is_hex(text@[from]) && is_hex(text@[from + 1])
                && is_hex(text@[from + 2]) && is_hex(text@[from + 3]) && is_hex(text@[from + 4])
                && is_hex(text@[from + 5]);
            &&& r is Ok <==> good
            &&& r is Ok ==> (r->Ok_0).r == 16 * digit_number(text@[from]) + digit_number(
                text@[from + 1],
            )
            &&& r is Ok ==> (r->Ok_0).g == 16 * digit_number(text@[from + 2]) + digit_number(
                text@[from + 3],
            )
            &&& r is Ok ==> (r->Ok_0).b == 16 * digit_number(text@[from + 4]) + digit_number(
                text@[from + 5],
            )
            &&& r is Err ==> (r->Err_0)@ == "invalid hex color "@ + quoted(s@)
                + ", expected #rrggbb"@
        }),
{
    let from: int = if text@.len() > 0 && text@[0] == '#' {
        1
    } else {
        0
    };
    let h = skip_hash(text@);
    assert(h =~= text@.skip(from));
    if text@.len() == from + 6 {
        assert(h[0] == text@[from] && h[1] == text@[from + 1] && h[2] == text@[from + 2]);
        assert(h[3] == text@[from + 3] && h[4] == text@[from + 4] && h[5] == text@[from + 5]);
    }
    if is_hex_color(h) {
        assert(is_hex_digit(h[0]) && is_hex_digit(h[1]) && is_hex_digit(h[2]));
        assert(is_hex_digit(h[3]) && is_hex_digit(h[4]) && is_hex_digit(h[5]));
    }
}

/// A color that is written out is read back as itself, and is written with a
/// hash sign and small letters.
pub proof fn a_written_color_is_read_back(c: Rgb, text: String, again: &str, r: Result<Rgb, String>)
    requires
        call_ensures(hex, (c,), text),
        again@ == text@,
        call_ensures(parse_hex, (again,), r),
    ensures
        r == Ok::<Rgb, String>(c),
        text@.len() == 7,
        text@[0] == '#',
        forall|i: int|
            1 <= i < 7 ==> is_hex(#[trigger] text@[i]) && !(65 <= text@[i] as int <= 70),
{
    crate::config::colors_read_back(c);
}

/// The words for a unit system are read in any case and with blanks around them,
/// and no other word is.
pub proof fn units_have_four_words_each(s: &str, text: String, r: Result<DistanceUnits, String>)
    requires
        call_ensures(DistanceUnits::parse, (s,), r),
        call_ensures(trim, (s,), text),
    ensures
        r == Ok::<DistanceUnits, String>(DistanceUnits::Metric) <==> spells(text@, "metric"@)
            || spells(text@, "km"@) || spells(text@, "km/m"@) || spells(text@, "m"@),
        r == Ok::<DistanceUnits, String>(DistanceUnits::Imperial) <==> spells(text@, "imperial"@)
            || spells(text@, "mi"@) || spells(text@, "mi/ft"@) || spells(text@, "ft"@),
        r is Err ==> (r->Err_0)@ == "invalid distance.units "@ + quoted(lowercase(text@))
            + ", expected \"metric\" or \"imperial\""@,
{
    reveal_strlit("metric");
    reveal_strlit("km");
    reveal_strlit("km/m");
    reveal_strlit("m");
    reveal_strlit("imperial");
    reveal_strlit("mi");
    reveal_strlit("mi/ft");
    reveal_strlit("ft");
    let t = text@;
    if spells(t, "metric"@) || spells(t, "km"@) || spells(t, "km/m"@) || spells(t, "m"@) {
        if spells(t, "imperial"@) {
            assert(false);
        }
        if spells(t, "mi"@) {
            assert(crate::text::folded(t[1]) == 'i');
        }
        if spells(t, "mi/ft"@) {
            assert(false);
        }
        if spells(t, "ft"@) {
            assert(crate::text::folded(t[0]) == 'f');
        }
    }
}

/// The word for a unit system is read back as that system.
pub proof fn the_word_for_units_is_read_back(
    units: DistanceUnits,
    word: &str,
    r: Result<DistanceUnits, String>,
)
    requires
        call_ensures(DistanceUnits::as_str, (units,), word),
        call_ensures(DistanceUnits::parse, (word,), r),
    ensures
        r == Ok::<DistanceUnits, String>(units),
        word@ == "metric"@ || word@ == "imperial"@,
{
    crate::config::units_read_back(units);
}

/// A size is taken as it is where it is a finite number above zero, and refused
/// by its name and value otherwise.
pub proof fn a_size_is_above_zero(name: &str, v: RawSize, r: Result<u32, String>)
    requires
        call_ensures(parse_size, (name, &v), r),
    ensures
        r is Ok <==> 0 < v.bits < 0x7f80_0000,
        r is Ok ==> r->Ok_0 == v.bits,
        r is Err ==> (r->Err_0)@ == "sizes."@ + name@ + " must be > 0, got "@ + v.text@,
{
}

/// Every setting that a file gives is taken as it is given, and every setting
/// that it leaves out has its default: a blue track and an orange beacon, sizes of
/// 8, 6, 3, 3 and 14 points, no distance label, metric units, a dotted line, a
/// connection to any beacon, no path, and a point every 3 meters.
pub proof fn a_given_setting_is_taken(
    raw: RawConfig,
    r: Result<AppConfig, String>,
    color: &str,
    rgb: Result<Rgb, String>,
)
    requires
        call_ensures(AppConfig::from_raw, (&raw,), r),
        call_ensures(parse_hex, (color,), rgb),
        r is Ok,
    ensures
        ({
            let c = r->Ok_0;
            &&& raw.colors.track is None ==> c.colors.track == (Rgb { r: 0, g: 120, b: 255 })
            &&& raw.colors.fixed is None ==> c.colors.fixed == (Rgb { r: 255, g: 80, b: 40 })
            &&& opt_text(raw.colors.track) == Some(color@) ==> rgb == Ok::<Rgb, String>(
                c.colors.track,
            )
            &&& opt_text(raw.colors.fixed) == Some(color@) ==> rgb == Ok::<Rgb, String>(
                c.colors.fixed,
            )
            &&& raw.sizes.marker is Some ==> c.sizes.marker == (raw.sizes.marker->0).bits
            &&& raw.sizes.beacon is Some ==> c.sizes.beacon == (raw.sizes.beacon->0).bits
            &&& raw.sizes.track is Some ==> c.sizes.track == (raw.sizes.track->0).bits
            &&& raw.sizes.distance_line is Some ==> c.sizes.distance_line == (
            raw.sizes.distance_line->0).bits
            &&& raw.sizes.distance_text is Some ==> c.sizes.distance_text == (
            raw.sizes.distance_text->0).bits
            &&& raw.sizes.marker is None ==> c.sizes.marker == 0x4100_0000
            &&& raw.sizes.beacon is None ==> c.sizes.beacon == 0x40c0_0000
            &&& raw.sizes.track is None ==> c.sizes.track == 0x4040_0000
            &&& raw.sizes.distance_line is None ==> c.sizes.distance_line == 0x4040_0000
            &&& raw.sizes.distance_text is None ==> c.sizes.distance_text == 0x4160_0000
            &&& c.distance.show == (raw.distance.show == Some(true))
            &&& c.distance.dotted == (raw.distance.dotted != Some(false))
            &&& c.ble.enabled == (raw.ble.enabled != Some(false))
            &&& c.ble.show_path == (raw.ble.show_path == Some(true))
            &&& raw.distance.units is None ==> c.distance.units == DistanceUnits::Metric
            &&& raw.track.min_distance is Some ==> c.track.min_distance == (
            raw.track.min_distance->0).bits
            &&& raw.track.min_distance is None ==> c.track.min_distance == 0x4008_0000_0000_0000
        }),
{
}

/// The units and the pin that a file gives are the units and the pin; a blank
/// pin is none.
pub proof fn given_units_and_pin_are_taken(
    raw: RawConfig,
    r: Result<AppConfig, String>,
    word: &str,
    units: Result<DistanceUnits, String>,
    mac: &str,
    text: String,
)
    requires
        call_ensures(AppConfig::from_raw, (&raw,), r),
        call_ensures(DistanceUnits::parse, (word,), units),
        call_ensures(trim, (mac,), text),
        r is Ok,
    ensures
        opt_text(raw.distance.units) == Some(word@) ==> units == Ok::<DistanceUnits, String>(
            (r->Ok_0).distance.units,
        ),
        raw.ble.mac is None ==> (r->Ok_0).ble.mac is None,
        opt_text(raw.ble.mac) == Some(mac@) && text@.len() == 0 ==> (r->Ok_0).ble.mac is None,
        opt_text(raw.ble.mac) == Some(mac@) && text@.len() > 0 ==> opt_text((r->Ok_0).ble.mac)
            == Some(mac@),
{
}

proof fn lemma_names(names: Seq<(String, String)>, key: Seq<char>, i: int)
    requires
        0 <= i < names.len(),
        normal_mac(names[i].0@) == key,
        trimmed(names[i].1@).len() > 0,
        forall|j: int|
            i < j < names.len() ==> normal_mac((#[trigger] names[j]).0@) != key || trimmed(
                names[j].1@,
            ).len() == 0,
    ensures
        names_given(names).dom().contains(key),
        names_given(names)[key] == trimmed(names[i].1@),
    decreases names.len(),
{
    if i < names.len() - 1 {
        let fewer = names.drop_last();
        assert(fewer[i] == names[i]);
        assert forall|j: int| i < j < fewer.len() implies normal_mac((#[trigger] fewer[j]).0@)
            != key || trimmed(fewer[j].1@).len() == 0 by {
            assert(fewer[j] == names[j]);
        }
        lemma_names(fewer, key, i);
        assert(normal_mac(names[names.len() - 1].0@) != key || trimmed(
            names[names.len() - 1].1@,
        ).len() == 0);
    }
}

proof fn lemma_no_names(names: Seq<(String, String)>, key: Seq<char>)
    requires
        forall|j: int|
            0 <= j < names.len() ==> normal_mac((#[trigger] names[j]).0@) != key || trimmed(
                names[j].1@,
            ).len() == 0,
    ensures
        !names_given(names).dom().contains(key),
    decreases names.len(),
{
    if names.len() > 0 {
        let fewer = names.drop_last();
        assert forall|j: int| 0 <= j < fewer.len() implies normal_mac((#[trigger] fewer[j]).0@)
            != key || trimmed(fewer[j].1@).len() == 0 by {
            assert(fewer[j] == names[j]);
        }
        lemma_no_names(fewer, key);
        assert(normal_mac(names[names.len() - 1].0@) != key || trimmed(
            names[names.len() - 1].1@,
        ).len() == 0);
    }
}

/// A board that a file names is found under that name, by any spelling of its
/// address; of two names for one board the later counts, blank ones aside. A board
/// that the file does not name has none.
pub proof fn names_of_a_file_are_found(
    raw: RawConfig,
    r: Result<AppConfig, String>,
    mac: &str,
    found: Option<&str>,
    i: int,
)
    requires
        call_ensures(AppConfig::from_raw, (&raw,), r),
        r is Ok,
        call_ensures(BleSettings::name_of, (&(r->Ok_0).ble, mac), found),
    ensures
        ({
            let names = raw.ble.names@;
            let key = normal_mac(mac@);
            &&& 0 <= i < names.len() && normal_mac(names[i].0@) == key && trimmed(
                names[i].1@,
            ).len() > 0 && (forall|j: int|
                i < j < names.len() ==> normal_mac((#[trigger] names[j]).0@) != key || trimmed(
                    names[j].1@,
                ).len() == 0) ==> found is Some && (found->0)@ == trimmed(names[i].1@)
            &&& (forall|j: int|
                0 <= j < names.len() ==> normal_mac((#[trigger] names[j]).0@) != key || trimmed(
                    names[j].1@,
                ).len() == 0) ==> found is None
        }),
{
    let names = raw.ble.names@;
    let key = normal_mac(mac@);
    if 0 <= i < names.len() && normal_mac(names[i].0@) == key && trimmed(names[i].1@).len() > 0
        && (forall|j: int|
        i < j < names.len() ==> normal_mac((#[trigger] names[j]).0@) != key || trimmed(
            names[j].1@,
        ).len() == 0) {
        lemma_names(names, key, i);
    }
    if forall|j: int|
        0 <= j < names.len() ==> normal_mac((#[trigger] names[j]).0@) != key || trimmed(
            names[j].1@,
        ).len() == 0 {
        lemma_no_names(names, key);
    }
}

/// A file is refused exactly where a color, a size, the units or the distance
/// that it gives cannot be taken; flags, the pin and names never are a reason.
pub proof fn only_bad_values_are_refused(
    raw: RawConfig,
    r: Result<AppConfig, String>,
    track: Option<Result<Rgb, String>>,
    fixed: Option<Result<Rgb, String>>,
    units: Option<Result<DistanceUnits, String>>,
    a: &str,
    b: &str,
    c: &str,
)
    requires
        call_ensures(AppConfig::from_raw, (&raw,), r),
        match raw.colors.track {
            Some(s) => s@ == a@ && track is Some && call_ensures(parse_hex, (a,), track->0),
            None => track is None,
        },
        match raw.colors.fixed {
            Some(s) => s@ == b@ && fixed is Some && call_ensures(parse_hex, (b,), fixed->0),
            None => fixed is None,
        },
        match raw.distance.units {
            Some(s) => s@ == c@ && units is Some && call_ensures(
                DistanceUnits::parse,
                (c,),
                units->0,
            ),
            None => units is None,
        },
    ensures
        ({
            let bad_size = |v: Option<RawSize>| v is Some && !(0 < (v->0).bits < 0x7f80_0000);
            let bad_distance = raw.track.min_distance is Some && (raw.track.min_distance->0).bits
                >= 0x7ff0_0000_0000_0000 && (raw.track.min_distance->0).bits
                != 0x8000_0000_0000_0000;
            let bad_track = track is Some && track->0 is Err;
            let bad_fixed = fixed is Some && fixed->0 is Err;
            let bad_units = units is Some && units->0 is Err;
            let bad_sizes = bad_size(raw.sizes.marker) || bad_size(raw.sizes.beacon) || bad_size(
                raw.sizes.track,
            ) || bad_size(raw.sizes.distance_line) || bad_size(raw.sizes.distance_text);
            &&& r is Err <==> bad_track || bad_fixed || bad_sizes || bad_units || bad_distance
            &&& bad_track ==> (r->Err_0)@ == ((track->0)->Err_0)@
            &&& !bad_track && bad_fixed ==> (r->Err_0)@ == ((fixed->0)->Err_0)@
            &&& !bad_track && !bad_fixed && bad_size(raw.sizes.marker) ==> (r->Err_0)@ == "sizes."@
                + "marker"@ + " must be > 0, got "@ + (raw.sizes.marker->0).text@
            &&& !bad_track && !bad_fixed && !bad_size(raw.sizes.marker) && bad_size(
                raw.sizes.beacon,
            ) ==> (r->Err_0)@ == "sizes."@ + "beacon"@ + " must be > 0, got "@ + (
            raw.sizes.beacon->0).text@
            &&& !bad_track && !bad_fixed && !bad_size(raw.sizes.marker) && !bad_size(
                raw.sizes.beacon,
            ) && bad_size(raw.sizes.track) ==> (r->Err_0)@ == "sizes."@ + "track"@
                + " must be > 0, got "@ + (raw.sizes.track->0).text@
            &&& !bad_track && !bad_fixed && !bad_size(raw.sizes.marker) && !bad_size(
                raw.sizes.beacon,
            ) && !bad_size(raw.sizes.track) && bad_size(raw.sizes.distance_line) ==> (r->Err_0)@
                == "sizes."@ + "distance_line"@ + " must be > 0, got "@ + (
            raw.sizes.distance_line->0).text@
            &&& !bad_track && !bad_fixed && !bad_size(raw.sizes.marker) && !bad_size(
                raw.sizes.beacon,
            ) && !bad_size(raw.sizes.track) && !bad_size(raw.sizes.distance_line) && bad_size(
                raw.sizes.distance_text,
            ) ==> (r->Err_0)@ == "sizes."@ + "distance_text"@ + " must be > 0, got "@ + (
            raw.sizes.distance_text->0).text@
            &&& !bad_track && !bad_fixed && !bad_sizes && bad_units ==> (r->Err_0)@ == ((
            units->0)->Err_0)@
            &&& !bad_track && !bad_fixed && !bad_sizes && !bad_units && bad_distance ==> (
            r->Err_0)@ == "track.min_distance must be >= 0, got "@ + (
            raw.track.min_distance->0).text@
        }),
{
}

/// The settings of a fresh installation: a blue track and an orange beacon, sizes
/// of 8, 6, 3, 3 and 14 points, no distance label, metric units, a dotted line, a
/// connection to any beacon without a path or a name, and a point every 3 meters.
pub proof fn the_defaults_are_these(c: AppConfig)
    requires
        call_ensures(AppConfig::default, (), c),
    ensures
        c.colors.track == (Rgb { r: 0, g: 120, b: 255 }),
        c.colors.fixed == (Rgb { r: 255, g: 80, b: 40 }),
        c.sizes.marker == 0x4100_0000,
        c.sizes.beacon == 0x40c0_0000,
        c.sizes.track == 0x4040_0000,
        c.sizes.distance_line == 0x4040_0000,
        c.sizes.distance_text == 0x4160_0000,
        !c.distance.show,
        c.distance.units == DistanceUnits::Metric,
        c.distance.dotted,
        c.ble.enabled,
        !c.ble.show_path,
        c.ble.mac is None,
        forall|key: Seq<char>| !(#[trigger] c.ble.names@.dom().contains(key)),
        c.track.min_distance == 0x4008_0000_0000_0000,
{
}

} // verus!
