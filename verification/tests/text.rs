//! Text and numbers, held against the standard library's.

use gps_gui_rs::reals::{equal, equal_single, narrow, nearest_even, no_less, no_less_single};
use gps_gui_rs::text::{
    before, contains, decimal_text, ends_with, pad_left, pad_right, parse_u32, same,
    same_ignoring_case, signed_text, split, strip_prefix, to_ascii_lower, to_ascii_upper, trim,
    white,
};

#[test]
fn white_space_is_the_standard_one() {
    for n in 0..=0x10_ffff_u32 {
        if let Some(c) = char::from_u32(n) {
            assert_eq!(white(c), c.is_whitespace(), "{n:x}");
            assert_eq!(to_ascii_lower(c), c.to_ascii_lowercase());
            assert_eq!(to_ascii_upper(c), c.to_ascii_uppercase());
        }
    }
}

#[test]
fn trimming_is_the_standard_one() {
    for s in ["", " ", "a", " a ", "\t a b\u{2003}\n", "\u{feff}a", "ä\u{a0}", "\u{85}x\u{85}"] {
        assert_eq!(trim(s), s.trim());
        assert_eq!(trim(&trim(s)), trim(s));
    }
}

#[test]
fn texts_compare_as_strings_do() {
    let words = ["", "a", "ab", "abc", "b", "ä", "aä", "\u{ffff}", "\u{1f600}", "R.9.bak", "R.10.bak"];
    for a in words {
        for b in words {
            assert_eq!(before(a, b), a < b, "{a} {b}");
            assert_eq!(same(a, b), a == b);
            assert_eq!(contains(a, b), a.contains(b));
            assert_eq!(ends_with(a, b), a.ends_with(b));
            assert_eq!(strip_prefix(a, b).as_deref(), a.strip_prefix(b));
        }
    }
    assert!(same_ignoring_case("aB:Ä", "Ab:Ä"));
    assert!(!same_ignoring_case("ä", "Ä"));
    assert!(!same_ignoring_case("a", "ab"));
}

#[test]
fn splitting_is_the_standard_one() {
    for s in ["", ",", "a", "a,b", ",a,,b,"] {
        let want: Vec<String> = s.split(',').map(str::to_string).collect();
        assert_eq!(split(s, ','), want);
    }
}

#[test]
fn numbers_are_spelled_and_read_as_usual() {
    for n in [0, 1, 9, 10, 99, 100, 65_535, 4_294_967_296, u64::MAX] {
        assert_eq!(decimal_text(n), n.to_string());
    }
    for n in [0, -1, 7, i64::MIN, i64::MAX] {
        assert_eq!(signed_text(n), n.to_string());
    }
    for s in [
        "", "0", "007", "+5", "+", "-1", "4294967295", "4294967296", "99999999999999999999", "1 ",
        "1_0", "x", "+-1", "\u{661}", "000000000000000000000000000042",
    ] {
        assert_eq!(parse_u32(s), s.parse::<u32>().ok(), "{s}");
    }
}

#[test]
fn padding_is_the_standard_one() {
    for s in ["", "a", "äöü", "12345678", "123456789"] {
        assert_eq!(pad_right(s, 8), format!("{s:<8}"));
        assert_eq!(pad_left(s, 7), format!("{s:>7}"));
    }
}

const DOUBLES: [f64; 17] = [
    0.0,
    -0.0,
    1.0,
    -1.0,
    f64::MIN_POSITIVE,
    5e-324,
    -5e-324,
    f64::MAX,
    f64::MIN,
    f64::INFINITY,
    f64::NEG_INFINITY,
    f64::NAN,
    3.0,
    2.9999999999999996,
    1e-45,
    90.0,
    180.0,
];

#[test]
fn doubles_compare_as_floats_do() {
    for a in DOUBLES {
        for b in DOUBLES {
            assert_eq!(no_less(a.to_bits(), b.to_bits()), a >= b, "{a} {b}");
            assert_eq!(equal(a.to_bits(), b.to_bits()), a == b, "{a} {b}");
        }
    }
}

#[test]
fn singles_compare_as_floats_do() {
    for a in DOUBLES {
        for b in DOUBLES {
            let (a, b) = (a as f32, b as f32);
            assert_eq!(no_less_single(a.to_bits(), b.to_bits()), a >= b, "{a} {b}");
            assert_eq!(equal_single(a.to_bits(), b.to_bits()), a == b, "{a} {b}");
        }
    }
}

#[test]
fn narrowing_rounds_as_a_cast_does() {
    let check = |v: f64| {
        let want = v as f32;
        let got = narrow(v.to_bits());
        assert!(
            got == want.to_bits() || (v.is_nan() && f32::from_bits(got).is_nan()),
            "{v:e}"
        );
    };
    for v in DOUBLES {
        check(v);
    }
    // Near the edges of what a single holds, ties among them.
    for base in [f32::MAX, f32::MIN_POSITIVE, 1.0e-45, 1.0, 14.4, 16_777_216.0] {
        let wide = base as f64;
        for k in 0..64u64 {
            check(f64::from_bits(wide.to_bits() + (k << 26)));
            check(f64::from_bits(wide.to_bits() - (k << 26)));
            check(-f64::from_bits(wide.to_bits() + k * 0x0123_4567));
        }
    }
    // Every single is itself.
    let mut bits: u32 = 1;
    for _ in 0..200_000 {
        bits = bits.wrapping_mul(1_664_525).wrapping_add(1_013_904_223);
        check(f32::from_bits(bits) as f64);
        check(f64::from_bits(((bits as u64) << 32) | bits as u64));
    }
}

#[test]
fn halves_round_to_even() {
    assert_eq!(nearest_even(5, 2), 2);
    assert_eq!(nearest_even(7, 2), 4);
    assert_eq!(nearest_even(8, 3), 3);
    assert_eq!(nearest_even(7, 3), 2);
}
