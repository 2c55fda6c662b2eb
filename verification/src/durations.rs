//! Durations as short human phrases.

use crate::reals::{half_even, nearest_even};
use crate::text::{decimal, decimal_text};
use vstd::prelude::*;

verus! {

/// The step between the whole numbers that single precision can hold around a
/// number: one up to 24 bits, and twice as much for each bit more.
pub open spec fn step_from(n: nat, step: nat) -> nat
    decreases n,
{
    if n < 0x100_0000 {
        step
    } else {
        step_from(n / 2, 2 * step)
    }
}

/// A whole number as single precision holds it.
pub open spec fn single(n: nat) -> nat {
    half_even(n, step_from(n, 1)) * step_from(n, 1)
}

/// How many parts single precision divides a unit into around the quotient
/// `n / d`, which is at least one: `parts` below two, and half as many for each
/// doubling.
pub open spec fn parts_from(n: nat, d: nat, parts: nat) -> nat
    decreases parts,
{
    if n < 2 * d || parts <= 1 {
        parts
    } else {
        parts_from(n, 2 * d, parts / 2)
    }
}

/// So many seconds in tenths of an hour, from the quotient in single precision.
pub open spec fn hour_tenths(secs: nat) -> nat {
    let s = single(secs);
    let parts = parts_from(s, 3600, 0x80_0000);
    half_even(10 * half_even(s * parts, 3600), parts)
}

/// A duration in seconds as a short human phrase.
pub open spec fn secs_phrase(s: u32) -> Seq<char> {
    if s == 0 {
        "off"@
    } else if s < 60 {
        decimal(s as nat) + " s"@
    } else if s < 3600 {
        decimal(half_even(s as nat, 60)) + " min"@
    } else if s % 3600 == 0 {
        decimal((s / 3600) as nat) + " h"@
    } else {
        let tenths = hour_tenths(s as nat);
        decimal(tenths / 10) + "."@ + decimal(tenths % 10) + " h"@
    }
}

/// A rounded quotient is close to the quotient.
proof fn lemma_half_even_is_near(n: nat, d: nat)
    requires
        d > 0,
    ensures
        n / d <= half_even(n, d) <= n / d + 1,
{
}

fn held(n: u32) -> (r: u64)
    ensures
        r == single(n as nat),
        r <= 0x2_0000_0000,
        n >= 3600 ==> r >= 3600,
{
    let mut m: u64 = n as u64;
    let mut step: u64 = 1;
    while m >= 0x100_0000
        invariant
            step_from(n as nat, 1) == step_from(m as nat, step as nat),
            1 <= step <= 0x200,
            m * step <= n,
            n <= 0xffff_ffff,
            m <= 0xffff_ffff,
            step > 1 ==> n >= 0x100_0000,
        decreases m,
    {
        proof {
            assert((m / 2) * (2 * step) <= m * step) by (nonlinear_arith)
                requires
                    0 <= m,
                    0 <= step,
            ;
            assert(step <= 0x100) by (nonlinear_arith)
                requires
                    m * step <= 0xffff_ffff,
                    m >= 0x100_0000,
            ;
        }
        m = m / 2;
        step = 2 * step;
    }
    let rounded: u64 = nearest_even(n as u64, step);
    proof {
        lemma_half_even_is_near(n as nat, step as nat);
        let q = n as int / step as int;
        assert(q * step <= n < (q + 1) * step) by (nonlinear_arith)
            requires
                step > 0,
                q == n as int / step as int,
        ;
        assert(rounded * step <= (q + 1) * step) by (nonlinear_arith)
            requires
                rounded <= q + 1,
                step > 0,
        ;
        assert(rounded * step >= q * step) by (nonlinear_arith)
            requires
                rounded >= q,
                step > 0,
        ;
        assert((q + 1) * step == q * step + step) by (nonlinear_arith);
    }
    rounded * step
}

/// A duration in seconds as a short human phrase ("45 s", "5 min", "12 h").
/// Used wherever a sleep interval is shown or confirmed.
pub fn secs_text(s: u32) -> (r: String)
    ensures
        r@ == secs_phrase(s),
{
    if s == 0 {
        return "off".to_owned();
    }
    if s < 60 {
        let mut r = decimal_text(s as u64);
        r.append(" s");
        return r;
    }
    if s < 3600 {
        let mut r = decimal_text(nearest_even(s as u64, 60));
        r.append(" min");
        return r;
    }
    if s % 3600 == 0 {
        let mut r = decimal_text((s / 3600) as u64);
        r.append(" h");
        return r;
    }
    let n: u64 = held(s);
    let mut d: u64 = 3600;
    let mut parts: u64 = 0x80_0000;
    while n >= 2 * d && parts > 1
        invariant
            n <= 0x2_0000_0000,
            3600 <= d <= n,
            1 <= parts <= 0x80_0000,
            parts_from(n as nat, 3600, 0x80_0000) == parts_from(n as nat, d as nat, parts as nat),
        decreases parts,
    {
        d = 2 * d;
        parts = parts / 2;
    }
    assert(n * parts <= 0x2_0000_0000 * 0x80_0000) by (nonlinear_arith)
        requires
            n <= 0x2_0000_0000,
            parts <= 0x80_0000,
    ;
    let whole: u64 = nearest_even(n * parts, 3600);
    let tenths: u64 = nearest_even(10 * whole, parts);
    let mut r = decimal_text(tenths / 10);
    r.append(".");
    r.append(decimal_text(tenths % 10).as_str());
    r.append(" h");
    r
}

/// Only a duration of nothing reads as "off".
pub proof fn only_zero_is_off(s: u32)
    requires
        s > 0,
    ensures
        secs_phrase(s) != "off"@,
{
    reveal_strlit("off");
    reveal_strlit(" s");
    reveal_strlit(" min");
    reveal_strlit(" h");
    let text = secs_phrase(s);
    assert(text.last() == 's' || text.last() == 'n' || text.last() == 'h');
}

} // verus!
