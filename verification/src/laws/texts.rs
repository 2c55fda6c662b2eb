//! Texts and numbers: what the small helpers promise of each other.

use crate::laws::links::{lemma_alike, same_but_for_case};
use crate::laws::points::occurs;
use crate::reals::{
    equal, equal_single, half_even, narrow, nearest_even, no_less, no_less_single, power,
};
use crate::text::{
    before, chars_of, code, contains, copy_opt, decimal, decimal_text, digits_value, ends_with,
    folded, hex_digit, is_digit, is_white, joined, joined3, lead_white, lemma_white_counts,
    pad_left, pad_right, parse_u32, pieces, push_decimal, same, same_ignoring_case, same_opt,
    signed_text, spelled, split, strip_prefix, tail_white, text_of, texts, to_ascii_lower,
    to_ascii_upper, trim, white, without_plus,
};
use vstd::prelude::*;

verus! {

/// Below 128 the white characters are the space and the five from tab to
/// carriage return; above it the other spaces of Unicode and its separators of
/// lines and paragraphs.
pub proof fn blanks_are_these(c: char, r: bool)
    requires
        call_ensures(white, (c,), r),
    ensures
        (c as int) < 128 ==> (r <==> c == ' ' || 9 <= c as int <= 13),
        c as int >= 128 ==> (r <==> {
            let n = c as int;
            n == 0x85 || n == 0xa0 || n == 0x1680 || 0x2000 <= n <= 0x200a || n == 0x2028 || n
                == 0x2029 || n == 0x202f || n == 0x205f || n == 0x3000
        }),
{
}

/// Trimming takes white characters off both ends and nothing else: what is left
/// stands in the text as it stood, only white characters stood before and behind
/// it, and it neither starts nor ends with one.
pub proof fn trimming_takes_the_ends_only(s: &str, r: String)
    requires
        call_ensures(trim, (s,), r),
    ensures
        exists|from: int, to: int|
            0 <= from <= to <= s@.len() && r@ == #[trigger] s@.subrange(from, to) && (forall|i: int|
                0 <= i < from || to <= i < s@.len() ==> is_white(#[trigger] s@[i])),
        r@.len() > 0 ==> !is_white(r@[0]) && !is_white(r@.last()),
{
    let t = s@;
    let rest = t.skip(lead_white(t) as int);
    lemma_white_counts(t);
    lemma_white_counts(rest);
    lemma_tail(rest);
    let from = lead_white(t) as int;
    let to = t.len() - tail_white(rest);
    assert(r@ =~= t.subrange(from, to));
    assert forall|i: int| 0 <= i < from || to <= i < t.len() implies is_white(#[trigger] t[i]) by {
        if to <= i < t.len() && i >= from {
            assert(rest[i - from] == t[i]);
        }
    }
    if r@.len() > 0 {
        assert(r@[0] == t[from]);
        assert(r@.last() == rest[rest.len() - tail_white(rest) - 1]);
    }
}

proof fn lemma_tail(s: Seq<char>)
    ensures
        tail_white(s) <= s.len(),
        forall|i: int| s.len() - tail_white(s) <= i < s.len() ==> is_white(#[trigger] s[i]),
    decreases s.len(),
{
    if s.len() > 0 && is_white(s.last()) {
        let fewer = s.drop_last();
        lemma_tail(fewer);
        assert forall|i: int| s.len() - tail_white(s) <= i < s.len() implies is_white(
            #[trigger] s[i],
        ) by {
            if i < fewer.len() {
                assert(fewer[i] == s[i]);
            }
        }
    }
}

/// A part is found exactly where it occurs somewhere in the text.
pub proof fn a_part_is_found_where_it_occurs(s: &str, part: &str, r: bool)
    requires
        call_ensures(contains, (s, part), r),
    ensures
        r <==> occurs(part@, s@),
{
    if r {
        let i = choose|i: int| crate::text::stands_at(s@, part@, i);
        assert(s@.subrange(i, i + part@.len()) == part@);
    }
    if occurs(part@, s@) {
        let i = choose|i: int|
            0 <= i <= s@.len() - part@.len() && #[trigger] s@.subrange(i, i + part@.len())
                == part@;
        assert(crate::text::stands_at(s@, part@, i));
    }
}

/// A text ends with a tail where it is something with that tail behind it, and
/// what is left of a text without its head, put behind the head, is the text.
pub proof fn heads_and_tails_are_ends(
    s: &str,
    end: &str,
    r: bool,
    rest: Option<String>,
    middle: Seq<char>,
)
    requires
        call_ensures(ends_with, (s, end), r),
        call_ensures(strip_prefix, (s, end), rest),
    ensures
        s@ == middle + end@ ==> r,
        r ==> s@.len() >= end@.len() && s@ == s@.take(s@.len() - end@.len()) + end@,
        rest is Some ==> s@ == end@ + (rest->0)@,
        s@ == end@ + middle ==> rest is Some && (rest->0)@ == middle,
{
    if s@ == middle + end@ {
        assert(s@.skip(s@.len() - end@.len()) =~= end@);
    }
    if r {
        assert(s@ =~= s@.take(s@.len() - end@.len()) + s@.skip(s@.len() - end@.len()));
    }
    if rest is Some {
        assert(s@ =~= s@.take(end@.len() as int) + s@.skip(end@.len() as int));
    }
    if s@ == end@ + middle {
        assert(s@.take(end@.len() as int) =~= end@);
        assert(s@.skip(end@.len() as int) =~= middle);
    }
}

/// One text comes before another where it is a shorter start of it, or has the
/// smaller character where they first differ.
pub proof fn the_first_difference_decides(a: &str, b: &str, r: bool, n: int)
    requires
        call_ensures(before, (a, b), r),
        0 <= n <= a@.len(),
        n <= b@.len(),
        a@.take(n) == b@.take(n),
    ensures
        n < a@.len() && n < b@.len() && a@[n] != b@[n] ==> (r <==> (a@[n] as int) < (b@[n] as int)),
        n == a@.len() ==> (r <==> n < b@.len()),
        n == b@.len() ==> !r,
{
    let head = a@.take(n);
    let (x, y) = (a@.skip(n), b@.skip(n));
    assert(a@ =~= head + x);
    assert(b@ =~= head + y);
    crate::text::order_of_tails(head, x, y);
    if n < a@.len() && n < b@.len() {
        assert(x[0] == a@[n] && y[0] == b@[n]);
    }
}

/// A number is spelled by its last digit behind the spelling of the rest of it,
/// and a digit by its character.
pub proof fn a_number_is_spelled_digit_by_digit(n: u64, text: String, rest: String)
    requires
        call_ensures(decimal_text, (n,), text),
        call_ensures(decimal_text, ((n / 10) as u64,), rest),
    ensures
        n < 10 ==> text@.len() == 1,
        n >= 10 ==> text@.drop_last() == rest@,
        text@.last() as int == 48 + n % 10,
{
    assert(crate::text::digit(n as nat % 10) as int == 48 + n % 10);
    if n >= 10 {
        assert(text@.drop_last() =~= rest@);
    }
}

/// A number below zero is spelled with a minus before its size, any other as it
/// is.
pub proof fn a_minus_stands_before_the_size(n: i64, text: String)
    requires
        call_ensures(signed_text, (n,), text),
    ensures
        n >= 0 ==> text@ == decimal(n as nat),
        n < 0 ==> text@[0] == '-' && text@.drop_first() == decimal((-n) as nat),
{
    if n < 0 {
        assert(text@.drop_first() =~= decimal((-n) as nat));
    }
}

/// A number that was spelled is read back.
pub proof fn a_spelled_number_is_read_back(n: u32, text: String, again: &str, r: Option<u32>)
    requires
        call_ensures(decimal_text, (n as u64,), text),
        again@ == text@,
        call_ensures(parse_u32, (again,), r),
    ensures
        r == Some(n),
{
    crate::text::numbers_read_back(n as nat);
}

/// One more digit makes ten times the number and the digit, as long as that is
/// not too large, and any other character no number at all. Nothing is no number,
/// and a plus may stand at the front.
pub proof fn one_more_digit_is_ten_times_the_number(
    s: &str,
    longer: &str,
    c: char,
    r: Option<u32>,
    m: Option<u32>,
)
    requires
        call_ensures(parse_u32, (s,), r),
        call_ensures(parse_u32, (longer,), m),
        longer@ == s@.push(c),
    ensures
        s@.len() == 0 ==> r is None,
        r is Some && 48 <= c as int <= 57 && 10 * r->0 + (c as int - 48) <= u32::MAX ==> m is Some
            && m->0 == 10 * r->0 + (c as int - 48),
        r is Some && 48 <= c as int <= 57 && 10 * r->0 + (c as int - 48) > u32::MAX ==> m is None,
        r is None && s@.len() > 0 && s@ != seq!['+'] ==> m is None,
        s@.len() == 0 || s@ == seq!['+'] ==> (m is Some <==> 48 <= c as int <= 57),
        (s@.len() == 0 || s@ == seq!['+']) && m is Some ==> m->0 == c as int - 48,
        !(48 <= c as int <= 57) ==> m is None,
{
    let (a, b) = (without_plus(s@), without_plus(longer@));
    if s@.len() > 0 {
        assert(b =~= a.push(c));
        assert(b.drop_last() =~= a);
        if a.len() == 0 {
            assert(s@ =~= seq!['+']);
            reveal_with_fuel(digits_value, 2);
        }
    } else {
        assert(a.len() == 0);
        if c == '+' {
            assert(b.len() == 0);
        } else {
            assert(b =~= seq![c]);
            assert(b.drop_last() =~= Seq::<char>::empty());
            reveal_with_fuel(digits_value, 2);
        }
    }
    if b.len() > 0 {
        assert(b.last() == c);
        if crate::text::all_digits(b) {
            assert(is_digit(b[b.len() - 1]));
            assert forall|i: int| 0 <= i < a.len() implies is_digit(#[trigger] a[i]) by {
                if s@.len() > 0 {
                    assert(b[i] == a[i]);
                }
            }
        }
        if crate::text::all_digits(a) && is_digit(c) && s@.len() > 0 {
            assert forall|i: int| 0 <= i < b.len() implies is_digit(#[trigger] b[i]) by {
                if i < a.len() {
                    assert(is_digit(a[i]));
                }
            }
        }
    }
}

/// A text is split at every separator: a text without one is one piece, and one
/// more separator with a text that has none behind it makes that one more piece.
pub proof fn a_separator_makes_one_more_piece(
    head: &str,
    separator: char,
    tail: Seq<char>,
    whole: &str,
    first: Vec<String>,
    all: Vec<String>,
)
    requires
        call_ensures(split, (head, separator), first),
        call_ensures(split, (whole, separator), all),
        whole@ == head@.push(separator) + tail,
        forall|i: int| 0 <= i < tail.len() ==> #[trigger] tail[i] != separator,
    ensures
        texts(all@) == texts(first@).push(tail),
        (forall|i: int| 0 <= i < head@.len() ==> #[trigger] head@[i] != separator) ==> texts(first@)
            == seq![head@],
{
    lemma_pieces(head@, separator, tail);
    if forall|i: int| 0 <= i < head@.len() ==> #[trigger] head@[i] != separator {
        lemma_one_piece(head@, separator);
    }
}

/// A separator and a text without one add that text as a piece.
pub proof fn lemma_pieces(head: Seq<char>, separator: char, tail: Seq<char>)
    requires
        forall|i: int| 0 <= i < tail.len() ==> #[trigger] tail[i] != separator,
    ensures
        pieces(head.push(separator) + tail, separator) == pieces(head, separator).push(tail),
    decreases tail.len(),
{
    let s = head.push(separator) + tail;
    if tail.len() == 0 {
        assert(s =~= head.push(separator));
        assert(head.push(separator).drop_last() =~= head);
        assert(tail =~= Seq::<char>::empty());
    } else {
        let fewer = tail.drop_last();
        assert forall|i: int| 0 <= i < fewer.len() implies #[trigger] fewer[i] != separator by {
            assert(fewer[i] == tail[i]);
        }
        lemma_pieces(head, separator, fewer);
        assert(s.drop_last() =~= head.push(separator) + fewer);
        assert(s.last() == tail[tail.len() - 1]);
        let had = pieces(head, separator).push(fewer);
        assert(had.drop_last() =~= pieces(head, separator));
        assert(fewer.push(tail.last()) =~= tail);
    }
}

/// A text without a separator is one piece.
pub proof fn lemma_one_piece(s: Seq<char>, separator: char)
    requires
        forall|i: int| 0 <= i < s.len() ==> #[trigger] s[i] != separator,
    ensures
        pieces(s, separator) == seq![s],
    decreases s.len(),
{
    if s.len() == 0 {
        assert(s =~= Seq::<char>::empty());
    } else {
        let fewer = s.drop_last();
        assert forall|i: int| 0 <= i < fewer.len() implies #[trigger] fewer[i] != separator by {
            assert(fewer[i] == s[i]);
        }
        lemma_one_piece(fewer, separator);
        assert(s[s.len() - 1] != separator);
        assert(fewer.push(s.last()) =~= s);
        assert(seq![fewer].drop_last() =~= Seq::<Seq<char>>::empty());
        assert(Seq::<Seq<char>>::empty().push(s) =~= seq![s]);
    }
}

/// Two texts are the same where they have the same characters; without regard
/// to case, where they differ in the case of ASCII letters at most.
pub proof fn texts_are_compared_by_their_characters(
    a: &str,
    b: &str,
    exactly: bool,
    nearly: bool,
)
    requires
        call_ensures(same, (a, b), exactly),
        call_ensures(same_ignoring_case, (a, b), nearly),
    ensures
        exactly <==> a@.len() == b@.len() && (forall|i: int|
            0 <= i < a@.len() ==> #[trigger] a@[i] == b@[i]),
        nearly <==> same_but_for_case(a@, b@),
        exactly ==> nearly,
{
    lemma_alike(a@, b@);
    if a@.len() == b@.len() && (forall|i: int| 0 <= i < a@.len() ==> #[trigger] a@[i] == b@[i]) {
        assert(a@ =~= b@);
    }
}

/// Two optional texts are the same where both are there and the same, or neither
/// is there; a copy is the same.
pub proof fn optional_texts_are_compared_whole(
    a: Option<String>,
    b: Option<String>,
    r: bool,
    copy: Option<String>,
)
    requires
        call_ensures(same_opt, (&a, &b), r),
        call_ensures(copy_opt, (&a,), copy),
    ensures
        r <==> (a is None && b is None) || (a is Some && b is Some && (a->0)@ == (b->0)@),
        copy is Some <==> a is Some,
        copy is Some ==> (copy->0)@ == (a->0)@,
{
}

/// A word in small letters is spelled letter by letter, each small or capital;
/// for a k its sign for a degree Kelvin stands too.
pub proof fn a_word_is_spelled_in_any_case(s: &str, word: &str, r: bool)
    requires
        call_ensures(spelled, (s, word), r),
        forall|i: int|
            0 <= i < word@.len() ==> !(65 <= (#[trigger] word@[i]) as int <= 90) && word@[i] as int
                != 0x212a,
    ensures
        r <==> s@.len() == word@.len() && (forall|i: int|
            0 <= i < s@.len() ==> {
                let (x, y) = (#[trigger] s@[i] as int, word@[i] as int);
                x == y || (97 <= y <= 122 && x == y - 32) || (y == 107 && x == 0x212a)
            }),
{
    assert forall|x: char, y: char|
        !(65 <= y as int <= 90) && y as int != 0x212a implies (#[trigger] folded(x)
        == #[trigger] folded(y) <==> {
        let (m, n) = (x as int, y as int);
        m == n || (97 <= n <= 122 && m == n - 32) || (n == 107 && m == 0x212a)
    }) by {
        let f = folded(x);
        assert('k' as int == 107);
        assert(65 <= x as int <= 90 ==> f as int == x as int + 32);
        assert(folded(y) == y);
    }
    assert(forall|i: int| 0 <= i < word@.len() ==> folded(#[trigger] word@[i]) == word@[i]);
    if r {
        assert forall|i: int| 0 <= i < s@.len() implies {
            let (x, y) = (#[trigger] s@[i] as int, word@[i] as int);
            x == y || (97 <= y <= 122 && x == y - 32) || (y == 107 && x == 0x212a)
        } by {
            assert(folded(s@[i]) == word@[i]);
            assert(folded(s@[i]) == folded(word@[i]));
        }
    }
    if s@.len() == word@.len() && (forall|i: int|
        0 <= i < s@.len() ==> {
            let (x, y) = (#[trigger] s@[i] as int, word@[i] as int);
            x == y || (97 <= y <= 122 && x == y - 32) || (y == 107 && x == 0x212a)
        }) {
        assert forall|i: int| 0 <= i < s@.len() implies folded(#[trigger] s@[i]) == word@[i] by {
            assert(folded(s@[i]) == folded(word@[i]));
        }
    }
}

/// Joining puts texts behind each other, a text of some characters holds those,
/// and padding adds spaces on its side up to the width.
pub proof fn texts_are_put_together(
    a: &str,
    b: &str,
    c: &str,
    two: String,
    three: String,
    width: usize,
    left: String,
    right: String,
)
    requires
        call_ensures(joined, (a, b), two),
        call_ensures(joined3, (a, b, c), three),
        call_ensures(pad_left, (a, width), left),
        call_ensures(pad_right, (a, width), right),
    ensures
        two@ == a@ + b@,
        three@ == two@ + c@,
        left@.len() == (if a@.len() < width {
            width as nat
        } else {
            a@.len()
        }),
        right@.len() == left@.len(),
        left@.skip(left@.len() - a@.len()) == a@,
        right@.take(a@.len() as int) == a@,
        forall|i: int| 0 <= i < left@.len() - a@.len() ==> #[trigger] left@[i] == ' ',
        forall|i: int| a@.len() <= i < right@.len() ==> #[trigger] right@[i] == ' ',
{
    assert(left@.skip(left@.len() - a@.len()) =~= a@);
    assert(right@.take(a@.len() as int) =~= a@);
}

/// Small and capital letters of ASCII are 32 apart, and everything else is its
/// own; the hexadecimal digits are these.
pub proof fn letters_change_case_by_their_distance(
    c: char,
    small: char,
    capital: char,
    hexadecimal: bool,
)
    requires
        call_ensures(to_ascii_lower, (c,), small),
        call_ensures(to_ascii_upper, (c,), capital),
        call_ensures(hex_digit, (c,), hexadecimal),
    ensures
        65 <= c as int <= 90 ==> small as int == c as int + 32 && capital == c,
        97 <= c as int <= 122 ==> capital as int == c as int - 32 && small == c,
        !(65 <= c as int <= 90) && !(97 <= c as int <= 122) ==> small == c && capital == c,
        hexadecimal <==> 48 <= c as int <= 57 || 65 <= c as int <= 70 || 97 <= c as int <= 102,
{
}

/// A part of some characters is taken as it stands there.
pub proof fn a_part_is_taken_as_it_stands(chars: Vec<char>, from: usize, to: usize, r: String)
    requires
        call_ensures(text_of, (&chars, from, to), r),
        from <= to <= chars@.len(),
    ensures
        r@.len() == to - from,
        forall|i: int| 0 <= i < r@.len() ==> #[trigger] r@[i] == chars@[from + i],
{
}

/// The order of double-precision numbers is that of their bit patterns among
/// those at or above zero, the reverse among those at or below, and below before
/// above between them; the two zeros are one. What is no number is neither more
/// nor the same.
pub proof fn numbers_are_ordered_by_their_patterns(a: u64, b: u64, more: bool, same_one: bool)
    requires
        call_ensures(no_less, (a, b), more),
        call_ensures(equal, (a, b), same_one),
    ensures
        ({
            let half = 0x8000_0000_0000_0000u64;
            let top = 0x7ff0_0000_0000_0000u64;
            let (x, y) = (a as int % half as int, b as int % half as int);
            let numbers = x <= top && y <= top;
            &&& !numbers ==> !more && !same_one
            &&& numbers && a < half && b < half ==> (more <==> a >= b) && (same_one <==> a == b)
            &&& numbers && a >= half && b >= half ==> (more <==> a <= b) && (same_one <==> a == b)
            &&& numbers && a < half && b >= half ==> more && (same_one <==> a == 0 && b == half)
            &&& numbers && a >= half && b < half ==> (more <==> a == half && b == 0) && (same_one
                <==> a == half && b == 0)
        }),
{
}

/// The same in single precision.
pub proof fn single_numbers_are_ordered_by_their_patterns(
    a: u32,
    b: u32,
    more: bool,
    same_one: bool,
)
    requires
        call_ensures(no_less_single, (a, b), more),
        call_ensures(equal_single, (a, b), same_one),
    ensures
        ({
            let half = 0x8000_0000u32;
            let top = 0x7f80_0000u32;
            let (x, y) = (a as int % half as int, b as int % half as int);
            let numbers = x <= top && y <= top;
            &&& !numbers ==> !more && !same_one
            &&& numbers && a < half && b < half ==> (more <==> a >= b) && (same_one <==> a == b)
            &&& numbers && a >= half && b >= half ==> (more <==> a <= b) && (same_one <==> a == b)
            &&& numbers && a < half && b >= half ==> more && (same_one <==> a == 0 && b == half)
            &&& numbers && a >= half && b < half ==> (more <==> a == half && b == 0) && (same_one
                <==> a == half && b == 0)
        }),
{
}

/// A rounded quotient is no farther than half the divisor from the dividend, and
/// of two that are as near the even one.
pub proof fn a_rounded_quotient_is_the_nearest(n: u64, d: u64, r: u64)
    requires
        call_ensures(nearest_even, (n, d), r),
        d > 0,
    ensures
        2 * (r * d - n) <= d,
        2 * (n - r * d) <= d,
        2 * (r * d - n) == d || 2 * (n - r * d) == d ==> r % 2 == 0,
{
    lemma_nearest(n as nat, d as nat);
}

/// A quotient rounded to even is the nearest.
pub proof fn lemma_nearest(n: nat, d: nat)
    requires
        d > 0,
    ensures
        2 * (half_even(n, d) * d - n) <= d,
        2 * (n - half_even(n, d) * d) <= d,
        2 * (half_even(n, d) * d - n) == d || 2 * (n - half_even(n, d) * d) == d ==> half_even(
            n,
            d,
        ) % 2 == 0,
{
    let (q, r) = (n / d, n % d);
    assert(n == q * d + r && r < d) by (nonlinear_arith)
        requires
            d > 0,
            q == n / d,
            r == n % d,
    ;
    assert((q + 1) * d == q * d + d) by (nonlinear_arith);
}

/// Rounding a number to single precision keeps its sign, leaves no number no
/// number, takes it to the nearest number that single precision has, of two as
/// near the even pattern, and what is too large to infinity.
pub proof fn a_narrowed_number_is_the_nearest(bits: u64, r: u32)
    requires
        call_ensures(narrow, (bits,), r),
    ensures
        ({
            let m = bits as int % 0x8000_0000_0000_0000;
            let s = r as int % 0x8000_0000;
            &&& bits < 0x8000_0000_0000_0000 <==> r < 0x8000_0000
            &&& m > 0x7ff0_0000_0000_0000 <==> s > 0x7f80_0000
            &&& m == 0x7ff0_0000_0000_0000 ==> s == 0x7f80_0000
            &&& m == 0 ==> s == 0
            &&& 0x3810_0000_0000_0000 <= m < 0x47ef_ffff_f000_0000 ==> {
                let wide = s * 0x2000_0000 + 0x3800_0000_0000_0000;
                &&& s < 0x7f80_0000
                &&& wide - m <= 0x1000_0000 && m - wide <= 0x1000_0000
                &&& wide - m == 0x1000_0000 || m - wide == 0x1000_0000 ==> s % 2 == 0
            }
            &&& 0x47ef_ffff_f000_0000 <= m <= 0x7ff0_0000_0000_0000 ==> s == 0x7f80_0000
            &&& m < 0x3680_0000_0000_0000 ==> s == 0
            &&& 0x3680_0000_0000_0000 <= m < 0x3810_0000_0000_0000 ==> {
                let step = power((926 - m / 0x10_0000_0000_0000) as nat);
                let fraction = 0x10_0000_0000_0000 + m % 0x10_0000_0000_0000;
                &&& 2 * (s * step - fraction) <= step
                &&& 2 * (fraction - s * step) <= step
                &&& 2 * (s * step - fraction) == step || 2 * (fraction - s * step) == step ==> s % 2
                    == 0
            }
        }),
{
    let m = bits as int % 0x8000_0000_0000_0000;
    let s = r as int % 0x8000_0000;
    if 0x3810_0000_0000_0000 <= m <= 0x7ff0_0000_0000_0000 {
        lemma_nearest((m - 0x3800_0000_0000_0000) as nat, 0x2000_0000);
    } else if 0x3680_0000_0000_0000 <= m < 0x3810_0000_0000_0000 {
        let step = power((926 - m / 0x10_0000_0000_0000) as nat);
        let fraction = 0x10_0000_0000_0000 + m % 0x10_0000_0000_0000;
        lemma_steps((926 - m / 0x10_0000_0000_0000) as nat);
        lemma_nearest(fraction as nat, step);
        let rounded = half_even(fraction as nat, step);
        let q = fraction as nat / step;
        assert(q <= 0x80_0000) by (nonlinear_arith)
            requires
                q == fraction as nat / step,
                0 <= fraction < 0x20_0000_0000_0000,
                step >= 0x4000_0000,
        ;
        assert(s == rounded);
    }
}

proof fn lemma_steps(n: nat)
    requires
        n >= 30,
    ensures
        power(n) >= 0x4000_0000,
    decreases n,
{
    if n == 30 {
        assert(power(10) == 1024) by {
            reveal_with_fuel(power, 11);
        }
        assert(power(20) == 0x10_0000) by {
            reveal_with_fuel(power, 11);
        }
        assert(power(30) == 0x4000_0000) by {
            reveal_with_fuel(power, 11);
        }
    } else {
        lemma_steps((n - 1) as nat);
    }
}

/// The characters of a text are its characters, each with its number; a number is
/// put behind a text as it is spelled; and a hexadecimal digit below ten is the
/// digit, from ten on a small letter.
pub proof fn characters_are_what_they_are(
    s: &str,
    chars: Vec<char>,
    c: char,
    number: u32,
    out: &mut String,
    n: u64,
    spelled_number: String,
    digit: u8,
    letter: char,
)
    requires
        call_ensures(chars_of, (s,), chars),
        call_ensures(code, (c,), number),
        call_ensures(push_decimal, (out, n), ()),
        call_ensures(decimal_text, (n,), spelled_number),
        call_ensures(crate::config::hex_letter, (digit,), letter),
        digit < 16,
    ensures
        chars@.len() == s@.len(),
        forall|i: int| 0 <= i < s@.len() ==> #[trigger] chars@[i] == s@[i],
        number == c as int,
        final(out)@ == old(out)@ + spelled_number@,
        digit < 10 ==> letter as int == 48 + digit,
        digit >= 10 ==> letter as int == 97 + (digit - 10),
{
}

} // verus!
