//! The binary64 interchange format, read off a 64-bit pattern.
//!
//! A percentage travels through this crate as the 64 bits of a double.
//! Nothing here computes with such a number: the module says which number a
//! pattern denotes, as an exact integer on a fixed scale, and decides by
//! integer comparison whether that number is a percentage.

use vstd::prelude::*;
use vstd::arithmetic::power2::{
    lemma2_to64,
    lemma2_to64_rest,
    lemma_pow2_adds,
    lemma_pow2_pos,
    lemma_pow2_strictly_increases,
    pow2,
};

verus! {

/// Weight of the lowest exponent bit: patterns hold 52 fraction bits below it.
pub const FRACTION_SPAN: u64 = 0x10_0000_0000_0000;

/// Weight of the sign bit. Taken alone it is the pattern of negative zero.
pub const SIGN_BIT: u64 = 0x8000_0000_0000_0000;

/// The pattern of the number 100: exponent field 1029, fraction field 9 * 2^48.
pub const HUNDRED: u64 = 0x4059_0000_0000_0000;

/// Whether the sign bit of the pattern is set.
pub open spec fn negative(bits: u64) -> bool {
    bits >= SIGN_BIT
}

/// The 11-bit exponent field.
pub open spec fn exponent(bits: u64) -> nat {
    ((bits as int / FRACTION_SPAN as int) % 2048) as nat
}

/// The 52-bit fraction field.
pub open spec fn fraction(bits: u64) -> nat {
    (bits as int % FRACTION_SPAN as int) as nat
}

/// Whether the pattern denotes a number, that is neither an infinity nor a
/// NaN: those, and only those, have every exponent bit set.
pub open spec fn finite(bits: u64) -> bool {
    exponent(bits) < 2047
}

/// The absolute value of the number that a finite pattern denotes, in units
/// of 2^-1074. Every finite double is a whole number of such units: a
/// subnormal one counts `fraction` of them, a normal one
/// `(2^52 + fraction) * 2^(exponent - 1)`.
pub open spec fn magnitude(bits: u64) -> nat {
    if exponent(bits) == 0 {
        fraction(bits)
    } else {
        (FRACTION_SPAN as nat + fraction(bits)) * pow2((exponent(bits) - 1) as nat)
    }
}

/// The number 100 in units of 2^-1074.
pub open spec fn hundred_units() -> nat {
    100 * pow2(1074)
}

/// Whether the pattern denotes a number `x` with `0 <= x <= 100`.
///
/// Negative zero denotes zero and is within; every other negative number,
/// both infinities and every NaN are not.
pub open spec fn within_percent(bits: u64) -> bool {
    &&& finite(bits)
    &&& magnitude(bits) == 0 || (!negative(bits) && magnitude(bits) <= hundred_units())
}

/// Products of natural numbers grow with both factors.
proof fn lemma_product_grows(a: nat, b: nat, c: nat, d: nat)
    requires
        a <= b,
        c <= d,
    ensures
        a * c <= b * d,
{
    assert(a * c <= b * d) by (nonlinear_arith)
        requires
            0 <= a <= b,
            0 <= c <= d,
    ;
}

/// With a positive common factor, the larger factor gives the larger product.
proof fn lemma_product_strictly_grows(a: nat, b: nat, c: nat)
    requires
        a < b,
        c > 0,
    ensures
        a * c < b * c,
{
    assert(a * c < b * c) by (nonlinear_arith)
        requires
            0 <= a < b,
            c > 0,
    ;
}

/// The pattern `HUNDRED` denotes exactly 100.
pub proof fn lemma_hundred_denotes_hundred()
    ensures
        finite(HUNDRED),
        !negative(HUNDRED),
        magnitude(HUNDRED) == hundred_units(),
{
    lemma2_to64();
    lemma2_to64_rest();
    lemma_pow2_adds(46, 1028);
    assert(exponent(HUNDRED) == 1029);
    assert(fraction(HUNDRED) == 9 * 0x1_0000_0000_0000);
    let unit = pow2(1028);
    assert(pow2(1074) == pow2(46) * unit);
    assert(100 * (pow2(46) * unit) == (100 * pow2(46)) * unit) by (nonlinear_arith);
    assert(100 * pow2(46) == FRACTION_SPAN as nat + fraction(HUNDRED));
}

/// Among the patterns without a sign bit, those that denote a number in
/// `0 ..= 100` are the ones not above `HUNDRED`; among those with a sign bit,
/// negative zero alone does.
pub proof fn lemma_within_percent_by_pattern(bits: u64)
    ensures
        within_percent(bits) <==> (bits <= HUNDRED || bits == SIGN_BIT),
{
    lemma2_to64();
    lemma2_to64_rest();
    lemma_hundred_denotes_hundred();
    let e = exponent(bits);
    let f = fraction(bits);
    let span = FRACTION_SPAN as nat;
    assert(f < span);
    assert(e < 2048);
    if negative(bits) {
        assert(bits == SIGN_BIT as int + e * span + f);
        if e != 0 {
            lemma_pow2_pos((e - 1) as nat);
            lemma_product_grows(1, span + f, 1, pow2((e - 1) as nat));
        }
    } else {
        assert(bits == e * span + f);
        if e == 0 {
            lemma_pow2_strictly_increases(52, 1074);
        } else if e <= 1028 {
            // at most 2^53 * 2^1027 = 64 * 2^1074 units
            if e < 1028 {
                lemma_pow2_strictly_increases((e - 1) as nat, 1027);
            }
            lemma_product_grows(span + f, pow2(53), pow2((e - 1) as nat), pow2(1027));
            lemma_pow2_adds(53, 1027);
            lemma_pow2_adds(6, 1074);
        } else if e == 1029 {
            let unit = pow2(1028);
            lemma_pow2_pos(1028);
            let top = span + fraction(HUNDRED);
            if f <= fraction(HUNDRED) {
                lemma_product_grows(span + f, top, unit, unit);
            } else {
                lemma_product_strictly_grows(top, span + f, unit);
            }
        } else if e <= 2046 {
            // at least 2^52 * 2^1029 = 128 * 2^1074 units
            if e > 1030 {
                lemma_pow2_strictly_increases(1029, (e - 1) as nat);
            }
            lemma_product_grows(pow2(52), span + f, pow2(1029), pow2((e - 1) as nat));
            lemma_pow2_adds(52, 1029);
            lemma_pow2_adds(7, 1074);
            lemma_pow2_pos(1074);
        }
    }
}

/// Decides `within_percent` by two comparisons of the pattern.
pub fn is_within_percent(bits: u64) -> (within: bool)
    ensures
        within == within_percent(bits),
{
    proof {
        lemma_within_percent_by_pattern(bits);
    }
    bits <= HUNDRED || bits == SIGN_BIT
}

} // verus!
