//! Comparing and rounding real numbers by their IEEE 754 bit patterns.
//!
//! The patterns of numbers with the sign bit clear are in the order of the
//! numbers, and a set sign bit mirrors that order; a pattern above infinity is
//! not a number and compares with nothing.

use vstd::prelude::*;

verus! {

/// The bit pattern of no number, in double precision.
pub open spec fn is_nan(bits: u64) -> bool {
    bits as int % 0x8000_0000_0000_0000 > 0x7ff0_0000_0000_0000
}

/// Where a number stands in the order of all double-precision numbers, with
/// zero at zero. Plus and minus zero stand in one place.
pub open spec fn rank(bits: u64) -> int {
    if bits < 0x8000_0000_0000_0000 {
        bits as int
    } else {
        0x8000_0000_0000_0000 - bits
    }
}

/// `a >= b` for two double-precision numbers.
pub open spec fn at_least(a: u64, b: u64) -> bool {
    !is_nan(a) && !is_nan(b) && rank(a) >= rank(b)
}

/// `a == b` for two double-precision numbers.
pub open spec fn same_number(a: u64, b: u64) -> bool {
    !is_nan(a) && !is_nan(b) && rank(a) == rank(b)
}

/// The bit pattern of no number, in single precision.
pub open spec fn is_nan_single(bits: u32) -> bool {
    bits as int % 0x8000_0000 > 0x7f80_0000
}

/// Where a number stands in the order of all single-precision numbers.
pub open spec fn rank_single(bits: u32) -> int {
    if bits < 0x8000_0000 {
        bits as int
    } else {
        0x8000_0000 - bits
    }
}

/// `a == b` for two single-precision numbers.
pub open spec fn same_single(a: u32, b: u32) -> bool {
    !is_nan_single(a) && !is_nan_single(b) && rank_single(a) == rank_single(b)
}

/// `a >= b` for two single-precision numbers.
pub open spec fn at_least_single(a: u32, b: u32) -> bool {
    !is_nan_single(a) && !is_nan_single(b) && rank_single(a) >= rank_single(b)
}

fn place(bits: u64) -> (r: i128)
    ensures
        r == rank(bits),
{
    if bits < 0x8000_0000_0000_0000 {
        bits as i128
    } else {
        0x8000_0000_0000_0000 - bits as i128
    }
}

fn no_number(bits: u64) -> (r: bool)
    ensures
        r == is_nan(bits),
{
    bits % 0x8000_0000_0000_0000 > 0x7ff0_0000_0000_0000
}

/// Whether `a >= b`.
pub fn no_less(a: u64, b: u64) -> (r: bool)
    ensures
        r == at_least(a, b),
{
    !no_number(a) && !no_number(b) && place(a) >= place(b)
}

/// Whether `a == b`.
pub fn equal(a: u64, b: u64) -> (r: bool)
    ensures
        r == same_number(a, b),
{
    !no_number(a) && !no_number(b) && place(a) == place(b)
}

fn place_single(bits: u32) -> (r: i64)
    ensures
        r == rank_single(bits),
{
    if bits < 0x8000_0000 {
        bits as i64
    } else {
        0x8000_0000 - bits as i64
    }
}

fn no_number_single(bits: u32) -> (r: bool)
    ensures
        r == is_nan_single(bits),
{
    bits % 0x8000_0000 > 0x7f80_0000
}

/// Whether `a == b`, in single precision.
pub fn equal_single(a: u32, b: u32) -> (r: bool)
    ensures
        r == same_single(a, b),
{
    !no_number_single(a) && !no_number_single(b) && place_single(a) == place_single(b)
}

/// Whether `a >= b`, in single precision.
pub fn no_less_single(a: u32, b: u32) -> (r: bool)
    ensures
        r == at_least_single(a, b),
{
    !no_number_single(a) && !no_number_single(b) && place_single(a) >= place_single(b)
}

/// `n / d` rounded to the nearest whole number, a tie to the even one.
pub open spec fn half_even(n: nat, d: nat) -> nat
    recommends
        d > 0,
{
    let (q, r) = (n / d, n % d);
    if 2 * r < d || (2 * r == d && q % 2 == 0) {
        q
    } else {
        q + 1
    }
}

/// A power of two.
pub open spec fn power(n: nat) -> nat
    decreases n,
{
    if n == 0 {
        1
    } else {
        2 * power((n - 1) as nat)
    }
}

/// The bit pattern of a double-precision magnitude rounded to single precision,
/// a tie to the even pattern. From the smallest normal number of single
/// precision up, dropping the low 29 bits of the pattern rounds both the
/// exponent and the fraction; below it the fraction loses as many bits more as
/// the exponent is short.
pub open spec fn narrowed_magnitude(magnitude: nat) -> nat {
    if magnitude > 0x7ff0_0000_0000_0000 {
        0x7fc0_0000
    } else if magnitude >= 0x3810_0000_0000_0000 {
        let rounded = half_even((magnitude - 0x3800_0000_0000_0000) as nat, 0x2000_0000);
        if rounded < 0x7f80_0000 {
            rounded
        } else {
            0x7f80_0000
        }
    } else {
        let exponent = magnitude / 0x10_0000_0000_0000;
        if exponent < 872 {
            0
        } else {
            half_even(
                0x10_0000_0000_0000 + magnitude % 0x10_0000_0000_0000,
                power((926 - exponent) as nat),
            )
        }
    }
}

/// The bit pattern of a double-precision number rounded to single precision. A
/// pattern of no number stays one.
pub open spec fn narrowed(bits: u64) -> u32 {
    let magnitude = narrowed_magnitude((bits as int % 0x8000_0000_0000_0000) as nat);
    if bits < 0x8000_0000_0000_0000 {
        magnitude as u32
    } else {
        (0x8000_0000 + magnitude) as u32
    }
}

/// How often a number can be halved before it is one.
pub open spec fn exponent(n: nat) -> nat
    decreases n,
{
    if n <= 1 {
        0
    } else {
        1 + exponent(n / 2)
    }
}

/// The bit pattern of a whole magnitude in double precision: the exponent, and
/// 53 significant bits, rounded to the nearest, a tie to the even ones. A
/// significand that rounds up to the next power of two carries into the
/// exponent.
pub open spec fn whole_magnitude(n: nat) -> nat {
    if n == 0 {
        0
    } else {
        let e = exponent(n);
        let significand = if e <= 52 {
            n * power((52 - e) as nat)
        } else {
            half_even(n, power((e - 52) as nat))
        };
        (e + 1022) * 0x10_0000_0000_0000 + significand
    }
}

/// The bit pattern of a whole number in double precision.
pub open spec fn whole_as_real(n: i64) -> u64 {
    if n < 0 {
        (0x8000_0000_0000_0000 + whole_magnitude((-n) as nat)) as u64
    } else {
        whole_magnitude(n as nat) as u64
    }
}

/// `n / d` rounded to the nearest whole number, a tie to the even one.
pub fn nearest_even(n: u64, d: u64) -> (r: u64)
    requires
        d > 0,
        2 * d <= u64::MAX,
        n / d < u64::MAX,
    ensures
        r == half_even(n as nat, d as nat),
{
    let q: u64 = n / d;
    let m: u64 = n % d;
    if 2 * m < d || (2 * m == d && q % 2 == 0) {
        q
    } else {
        q + 1
    }
}

proof fn lemma_powers()
    ensures
        power(30) == 0x4000_0000,
        power(54) == 0x40_0000_0000_0000,
{
    assert(power(10) == 1024) by {
        reveal_with_fuel(power, 11);
    }
    assert(power(20) == 0x10_0000) by {
        reveal_with_fuel(power, 11);
    }
    assert(power(30) == 0x4000_0000) by {
        reveal_with_fuel(power, 11);
    }
    assert(power(42) == 0x400_0000_0000) by {
        reveal_with_fuel(power, 13);
    }
    assert(power(54) == 0x40_0000_0000_0000) by {
        reveal_with_fuel(power, 13);
    }
}

proof fn lemma_powers_grow(a: nat, b: nat)
    requires
        a <= b,
    ensures
        0 < power(a) <= power(b),
    decreases b,
{
    if a < b {
        lemma_powers_grow(a, (b - 1) as nat);
    } else if a > 0 {
        lemma_powers_grow((a - 1) as nat, (b - 1) as nat);
    }
}

fn power_of_two(n: u64) -> (r: u64)
    requires
        30 <= n <= 54,
    ensures
        r == power(n as nat),
        0x4000_0000 <= r <= 0x40_0000_0000_0000,
{
    let mut r: u64 = 0x4000_0000;
    let mut i: u64 = 30;
    proof {
        lemma_powers();
    }
    while i < n
        invariant
            30 <= i <= n <= 54,
            r == power(i as nat),
            power(54) == 0x40_0000_0000_0000,
        decreases n - i,
    {
        proof {
            lemma_powers_grow((i + 1) as nat, 54);
        }
        r = 2 * r;
        i = i + 1;
    }
    proof {
        lemma_powers_grow(30, n as nat);
        lemma_powers_grow(n as nat, 54);
    }
    r
}

/// A double-precision number rounded to single precision.
pub fn narrow(bits: u64) -> (r: u32)
    ensures
        r == narrowed(bits),
{
    let magnitude: u64 = bits % 0x8000_0000_0000_0000;
    let small: u64 = if magnitude > 0x7ff0_0000_0000_0000 {
        0x7fc0_0000
    } else if magnitude >= 0x3810_0000_0000_0000 {
        let rounded: u64 = nearest_even(magnitude - 0x3800_0000_0000_0000, 0x2000_0000);
        if rounded < 0x7f80_0000 {
            rounded
        } else {
            0x7f80_0000
        }
    } else {
        let exponent: u64 = magnitude / 0x10_0000_0000_0000;
        if exponent < 872 {
            0
        } else {
            let fraction: u64 = 0x10_0000_0000_0000 + magnitude % 0x10_0000_0000_0000;
            let step: u64 = power_of_two(926 - exponent);
            proof {
                let q = fraction as int / step as int;
                assert(q <= 0x80_0000) by (nonlinear_arith)
                    requires
                        q == fraction as int / step as int,
                        0 <= fraction < 0x20_0000_0000_0000,
                        step >= 0x4000_0000,
                ;
            }
            nearest_even(fraction, step)
        }
    };
    proof {
        assert(small <= 0x7fc0_0000);
    }
    if bits < 0x8000_0000_0000_0000 {
        small as u32
    } else {
        (0x8000_0000 + small) as u32
    }
}

} // verus!
