//! Numeric decode: the pure function that maps the digit run of a numeric
//! character reference, with its base, to the Unicode scalar value it
//! denotes — or to U+FFFD REPLACEMENT CHARACTER where, for security, the
//! denoted value may not materialize as itself (NUL, control points,
//! UTF-16 surrogates, noncharacters, out of range).
//!
//! The recognizer only validates syntax; the downstream materialization
//! stage consults this function.

use vstd::prelude::*;
use crate::char_class::{is_ascii_digit, is_ascii_hexdigit};

verus! {

/// The replacement scalar, U+FFFD.
pub const REPLACEMENT_SCALAR: u32 = 0xFFFD;

/// Numeric value of one ASCII digit or hexadecimal digit byte.
pub open spec fn digit_value(b: u8) -> int {
    if 0x30 <= b && b <= 0x39 {
        b - 0x30
    } else if 0x41 <= b && b <= 0x46 {
        b - 0x41 + 10
    } else {
        b - 0x61 + 10
    }
}

/// Value of a digit run read most significant first, in the given base.
pub open spec fn digits_value(s: Seq<u8>, base: int) -> int
    decreases s.len(),
{
    if s.len() == 0 {
        0
    } else {
        digits_value(s.drop_last(), base) * base + digit_value(s.last())
    }
}

/// `base` to the power `n` (1 for `n <= 0`).
pub open spec fn base_pow(base: int, n: int) -> int
    decreases n,
{
    if n <= 0 {
        1
    } else {
        base * base_pow(base, n - 1)
    }
}

/// Whether the scalar `v` may materialize as itself: not NUL, not an
/// excluded control point (tab, line feed, form feed and carriage return
/// stay allowed), not a UTF-16 surrogate, not a noncharacter, not past
/// the last scalar.
pub open spec fn allowed_scalar(v: int) -> bool {
    &&& v > 0x08
    &&& v != 0x0B
    &&& !(0x0E <= v && v <= 0x1F)
    &&& !(0x7F <= v && v <= 0x9F)
    &&& !(0xD800 <= v && v <= 0xDFFF)
    &&& !(0xFDD0 <= v && v <= 0xFDEF)
    &&& v % 0x10000 != 0xFFFE
    &&& v % 0x10000 != 0xFFFF
    &&& v <= 0x10FFFF
}

/// What [`decode_numeric`] returns: the denoted scalar where it is
/// allowed, the replacement scalar everywhere else.
pub open spec fn decode_numeric_spec(s: Seq<u8>, hexadecimal: bool) -> u32 {
    let v = digits_value(s, if hexadecimal { 16 } else { 10 });
    if allowed_scalar(v) {
        v as u32
    } else {
        REPLACEMENT_SCALAR
    }
}

/// A digit run is nonnegative and bounded by `base` to its length.
proof fn lemma_digits_value_bounds(s: Seq<u8>, base: int)
    requires
        2 <= base,
        forall|k: int| 0 <= k < s.len() ==> 0 <= digit_value(#[trigger] s[k]) < base,
    ensures
        0 <= digits_value(s, base),
        digits_value(s, base) < base_pow(base, s.len() as int),
    decreases s.len(),
{
    if s.len() == 0 {
    } else {
        let prev = s.drop_last();
        assert(forall|k: int| 0 <= k < prev.len() ==> 0 <= digit_value(#[trigger] prev[k]) < base);
        lemma_digits_value_bounds(prev, base);
        let p = digits_value(prev, base);
        let m = base_pow(base, prev.len() as int);
        assert(0 <= s.len() - 1 < s.len());
        assert(0 <= digit_value(s.last()) < base);
        assert(p * base + digit_value(s.last()) < m * base) by (nonlinear_arith)
            requires
                0 <= p,
                p < m,
                base >= 2,
                0 <= digit_value(s.last()) < base,
        ;
        assert(digits_value(s, base) == p * base + digit_value(s.last()));
        assert(prev.len() as int == s.len() as int - 1);
        assert(base_pow(base, s.len() as int) == base * m);
    }
}

/// Executable digit value.
fn digit_of(b: u8) -> (d: u32)
    requires
        is_ascii_hexdigit(b),
    ensures
        d == digit_value(b),
{
    if b <= 0x39 {
        (b - 0x30) as u32
    } else if b <= 0x46 {
        (b - 0x41 + 10) as u32
    } else {
        (b - 0x61 + 10) as u32
    }
}

/// Decode the digit run `bytes[start..end]` of a numeric character
/// reference, decimal (up to 7 digits) or hexadecimal (up to 6), into the
/// scalar it denotes, with the security substitution of
/// [`decode_numeric_spec`].
pub fn decode_numeric(bytes: &Vec<u8>, start: usize, end: usize, hexadecimal: bool) -> (r: u32)
    requires
        start <= end <= bytes@.len(),
        end - start >= 1,
        hexadecimal ==> end - start <= 6,
        !hexadecimal ==> end - start <= 7,
        hexadecimal ==> forall|k: int| start <= k < end ==> is_ascii_hexdigit(#[trigger] bytes@[k]),
        !hexadecimal ==> forall|k: int| start <= k < end ==> is_ascii_digit(#[trigger] bytes@[k]),
    ensures
        r == decode_numeric_spec(bytes@.subrange(start as int, end as int), hexadecimal),
{
    let ghost s = bytes@.subrange(start as int, end as int);
    let ghost base_int: int = if hexadecimal { 16 } else { 10 };
    let base: u32 = if hexadecimal { 16 } else { 10 };
    let mut acc: u32 = 0;
    let mut i: usize = start;
    proof {
        assert(s.take(0) =~= Seq::<u8>::empty());
        reveal_with_fuel(base_pow, 9);
    }
    #[verifier::loop_isolation(false)]
    while i < end
        invariant
            start <= i <= end,
            acc == digits_value(s.take(i - start), base_int),
            0 <= acc < base_pow(base_int, i - start),
            base == base_int,
        decreases end - i,
    {
        let ghost k = (i - start) as int;
        let b = bytes[i];
        let d = digit_of(b);
        proof {
            assert(s.take(k + 1).drop_last() =~= s.take(k));
            assert(s.take(k + 1).last() == bytes@[i as int]);
            assert(forall|m: int|
                0 <= m < s.take(k + 1).len() ==> 0 <= digit_value(#[trigger] s.take(k + 1)[m])
                    < base_int);
            lemma_digits_value_bounds(s.take(k + 1), base_int);
            lemma_base_pow_mono(base_int, k + 1, (end - start) as int);
            assert(base_pow(base_int, (end - start) as int) <= 0x10000000);
            assert(acc * base_int + digit_value(bytes@[i as int]) == digits_value(
                s.take(k + 1),
                base_int,
            ));
        }
        acc = acc * base + d;
        i = i + 1;
    }
    proof {
        assert(s.take((end - start) as int) =~= s);
    }
    let allowed = acc > 0x08 && acc != 0x0B && !(0x0E <= acc && acc <= 0x1F) && !(0x7F <= acc
        && acc <= 0x9F) && !(0xD800 <= acc && acc <= 0xDFFF) && !(0xFDD0 <= acc && acc <= 0xFDEF)
        && acc % 0x10000 != 0xFFFE && acc % 0x10000 != 0xFFFF && acc <= 0x10FFFF;
    if allowed {
        acc
    } else {
        REPLACEMENT_SCALAR
    }
}

/// `base_pow` grows with its exponent.
proof fn lemma_base_pow_mono(base: int, n1: int, n2: int)
    requires
        2 <= base,
        0 <= n1 <= n2,
    ensures
        base_pow(base, n1) <= base_pow(base, n2),
    decreases n2,
{
    if n1 < n2 {
        lemma_base_pow_mono(base, n1, n2 - 1);
        lemma_base_pow_pos(base, n2 - 1);
        let p = base_pow(base, n2 - 1);
        assert(base_pow(base, n2) == base * p);
        assert(p <= base * p) by (nonlinear_arith)
            requires
                p >= 1,
                base >= 2,
        ;
    }
}

/// `base_pow` is positive.
proof fn lemma_base_pow_pos(base: int, n: int)
    requires
        2 <= base,
    ensures
        base_pow(base, n) >= 1,
    decreases n,
{
    if n > 0 {
        lemma_base_pow_pos(base, n - 1);
        assert(base * base_pow(base, n - 1) >= 1) by (nonlinear_arith)
            requires
                base >= 2,
                base_pow(base, n - 1) >= 1,
        ;
    }
}

} // verus!
