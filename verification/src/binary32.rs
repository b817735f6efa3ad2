//! Bit patterns of IEEE 754 single-precision numbers ("binary32").
//!
//! A color component travels through this library as the 32 bits of its
//! binary32 encoding. This module says which number such a pattern stands for
//! and compares patterns the way the format compares the numbers: the two
//! zeros are the same number, and a NaN is neither below, above nor the same
//! as anything.
use vstd::arithmetic::power2::{
    lemma2_to64, lemma_pow2_adds, lemma_pow2_pos, lemma_pow2_strictly_increases,
    lemma_pow2_unfold, pow2,
};
use vstd::prelude::*;

verus! {

/// The sign bit.
pub const SIGN: u32 = 0x8000_0000u32;

/// Positive infinity. A pattern whose magnitude is above this one is a NaN.
pub const INFINITY: u32 = 0x7F80_0000u32;

/// Two to the power 23: the weight of the implicit leading bit of a normal
/// number, and the number of patterns that share one exponent.
pub const HIDDEN_BIT: u32 = 0x0080_0000u32;

/// Positive zero.
pub const ZERO: u32 = 0u32;

/// One half.
pub const HALF: u32 = 0x3F00_0000u32;

/// One.
pub const ONE: u32 = 0x3F80_0000u32;

/// Whether the sign bit is set.
pub open spec fn negative(bits: u32) -> bool {
    bits >= SIGN
}

/// The pattern with the sign bit cleared.
pub open spec fn magnitude(bits: u32) -> u32 {
    if bits >= SIGN {
        (bits - SIGN) as u32
    } else {
        bits
    }
}

/// Whether the pattern is a NaN: exponent field all ones, fraction not zero.
pub open spec fn nan(bits: u32) -> bool {
    magnitude(bits) > INFINITY
}

/// The biased exponent field, 0 to 255.
pub open spec fn exponent(bits: u32) -> nat {
    (magnitude(bits) / HIDDEN_BIT) as nat
}

/// The fraction field, 23 bits.
pub open spec fn fraction(bits: u32) -> nat {
    (magnitude(bits) % HIDDEN_BIT) as nat
}

/// The absolute value that the pattern stands for, in units of 2^-149.
///
/// Every binary32 number is a whole multiple of 2^-149, the smallest
/// subnormal. A subnormal (exponent field 0) is `fraction` such units; a
/// normal number is `(2^23 + fraction) * 2^(exponent - 1)` of them. Infinity
/// comes out as 2^277, above every finite number. Of a NaN this says nothing
/// that matters.
pub open spec fn scaled_magnitude(bits: u32) -> nat {
    if exponent(bits) == 0 {
        fraction(bits)
    } else {
        (HIDDEN_BIT as nat + fraction(bits)) * pow2((exponent(bits) - 1) as nat)
    }
}

/// The number that the pattern stands for, multiplied by 2^149.
pub open spec fn scaled(bits: u32) -> int {
    if negative(bits) {
        -(scaled_magnitude(bits) as int)
    } else {
        scaled_magnitude(bits) as int
    }
}

/// `a < b` as binary32 numbers.
pub open spec fn less(a: u32, b: u32) -> bool {
    !nan(a) && !nan(b) && scaled(a) < scaled(b)
}

/// `a == b` as binary32 numbers.
pub open spec fn same(a: u32, b: u32) -> bool {
    !nan(a) && !nan(b) && scaled(a) == scaled(b)
}

/// The larger of two numbers, a NaN giving way to the other argument. Where
/// both stand for the same number, this is the first.
pub open spec fn larger(a: u32, b: u32) -> u32 {
    if nan(a) {
        b
    } else if nan(b) {
        a
    } else if scaled(a) < scaled(b) {
        b
    } else {
        a
    }
}

/// The smaller of two numbers, a NaN giving way to the other argument. Where
/// both stand for the same number, this is the first.
pub open spec fn smaller(a: u32, b: u32) -> u32 {
    if nan(a) {
        b
    } else if nan(b) {
        a
    } else if scaled(b) < scaled(a) {
        b
    } else {
        a
    }
}

/// The position of a pattern in the order of the numbers: the magnitude as an
/// integer, negated under a set sign bit.
spec fn rank_of(bits: u32) -> int {
    if negative(bits) {
        -(magnitude(bits) as int)
    } else {
        magnitude(bits) as int
    }
}

/// The named patterns stand for the numbers of their names: both zeros for
/// zero, `ONE` for 2^149 units of 2^-149, `HALF` for half as many, and
/// `INFINITY` for more than the largest finite number.
pub proof fn lemma_constants()
    ensures
        scaled(ZERO) == 0,
        scaled(SIGN) == 0,
        scaled(ONE) == pow2(149),
        2 * scaled(HALF) == pow2(149),
        scaled((INFINITY - 1) as u32) < scaled(INFINITY) == pow2(277),
        !nan(INFINITY) && nan((INFINITY + 1) as u32),
{
    lemma2_to64();
    lemma_pow2_adds(23, 126);
    lemma_pow2_adds(23, 254);
    lemma_pow2_unfold(126);
    lemma_magnitude_increases((INFINITY - 1) as u32, INFINITY);
    assert(scaled(ONE) == 0x80_0000 * pow2(126));
    assert(scaled(HALF) == 0x80_0000 * pow2(125));
    assert(scaled(INFINITY) == 0x80_0000 * pow2(254));
    assert(2 * (0x80_0000 * pow2(125)) == 0x80_0000 * (2 * pow2(125))) by (nonlinear_arith);
}

/// Among patterns that are no NaN, a larger magnitude field stands for a
/// larger absolute value.
pub proof fn lemma_magnitude_increases(x: u32, y: u32)
    requires
        x < y <= INFINITY,
    ensures
        scaled_magnitude(x) < scaled_magnitude(y),
{
    let ex = exponent(x);
    let ey = exponent(y);
    let fx = fraction(x);
    let fy = fraction(y);
    let h = HIDDEN_BIT as nat;
    assert(ex <= ey);
    if ex == ey {
        assert(fx < fy);
        if ex > 0 {
            let p = pow2((ex - 1) as nat);
            lemma_pow2_pos((ex - 1) as nat);
            assert((h + fx) * p < (h + fy) * p) by (nonlinear_arith)
                requires
                    p > 0,
                    fx < fy,
            ;
        }
    } else {
        let q = pow2((ey - 1) as nat);
        lemma_pow2_pos((ey - 1) as nat);
        assert(h * q <= (h + fy) * q) by (nonlinear_arith)
            requires
                q > 0,
        ;
        if ex == 0 {
            assert(h * 1 <= h * q) by (nonlinear_arith)
                requires
                    q >= 1,
            ;
        } else {
            let p = pow2((ex - 1) as nat);
            lemma_pow2_pos((ex - 1) as nat);
            lemma_pow2_unfold(ex);
            assert((h + fx) * p < h * (2 * p)) by (nonlinear_arith)
                requires
                    p > 0,
                    fx < h,
            ;
            if ex < ey - 1 {
                lemma_pow2_strictly_increases(ex, (ey - 1) as nat);
            }
            assert(h * pow2(ex) <= h * q) by (nonlinear_arith)
                requires
                    pow2(ex) <= q,
            ;
        }
    }
}

/// The integer order of the ranks is the order of the numbers.
proof fn lemma_rank_orders(a: u32, b: u32)
    requires
        !nan(a),
        !nan(b),
    ensures
        rank_of(a) < rank_of(b) <==> scaled(a) < scaled(b),
        rank_of(a) == rank_of(b) <==> scaled(a) == scaled(b),
{
    let x = magnitude(a);
    let y = magnitude(b);
    if x < y {
        lemma_magnitude_increases(x, y);
    }
    if y < x {
        lemma_magnitude_increases(y, x);
    }
    assert(magnitude(x) == x && magnitude(y) == y);
    assert(scaled_magnitude(a) == scaled_magnitude(x));
    assert(scaled_magnitude(b) == scaled_magnitude(y));
    if 0 < x {
        lemma_magnitude_increases(0, x);
    }
    if 0 < y {
        lemma_magnitude_increases(0, y);
    }
    assert(scaled_magnitude(0) == 0);
}

/// No number lies between a positive pattern and the pattern just before it:
/// what is below the one is at most the other.
pub proof fn lemma_no_number_between(x: u32, t: u32)
    requires
        !nan(x),
        0 < t <= INFINITY,
        scaled(x) < scaled(t),
    ensures
        scaled(x) <= scaled((t - 1) as u32),
{
    let before = (t - 1) as u32;
    lemma_rank_orders(x, t);
    lemma_rank_orders(x, before);
}

/// Whether the pattern is a NaN.
pub fn is_nan(bits: u32) -> (r: bool)
    ensures
        r == nan(bits),
{
    let m: u32 = if bits >= SIGN {
        bits - SIGN
    } else {
        bits
    };
    m > INFINITY
}

fn rank(bits: u32) -> (r: i64)
    ensures
        r == rank_of(bits),
{
    if bits >= SIGN {
        -((bits - SIGN) as i64)
    } else {
        bits as i64
    }
}

/// The comparison `a < b` of the two numbers. False where either is a NaN.
pub fn lt(a: u32, b: u32) -> (r: bool)
    ensures
        r == less(a, b),
{
    if is_nan(a) || is_nan(b) {
        return false;
    }
    proof {
        lemma_rank_orders(a, b);
    }
    rank(a) < rank(b)
}

/// The comparison `a == b` of the two numbers: true of the two zeros, false
/// where either is a NaN.
pub fn eq(a: u32, b: u32) -> (r: bool)
    ensures
        r == same(a, b),
{
    if is_nan(a) || is_nan(b) {
        return false;
    }
    proof {
        lemma_rank_orders(a, b);
    }
    rank(a) == rank(b)
}

/// The comparison `a <= b` of the two numbers. False where either is a NaN.
pub fn le(a: u32, b: u32) -> (r: bool)
    ensures
        r == (less(a, b) || same(a, b)),
{
    if is_nan(a) || is_nan(b) {
        return false;
    }
    proof {
        lemma_rank_orders(a, b);
    }
    rank(a) <= rank(b)
}

/// The comparison `a > b` of the two numbers. False where either is a NaN.
pub fn gt(a: u32, b: u32) -> (r: bool)
    ensures
        r == less(b, a),
{
    lt(b, a)
}

/// The comparison `a >= b` of the two numbers. False where either is a NaN.
pub fn ge(a: u32, b: u32) -> (r: bool)
    ensures
        r == (less(b, a) || same(b, a)),
{
    le(b, a)
}

/// The larger of two numbers, ignoring a NaN beside a number.
pub fn max(a: u32, b: u32) -> (r: u32)
    ensures
        r == larger(a, b),
{
    if is_nan(a) {
        b
    } else if is_nan(b) {
        a
    } else if lt(a, b) {
        b
    } else {
        a
    }
}

/// The smaller of two numbers, ignoring a NaN beside a number.
pub fn min(a: u32, b: u32) -> (r: u32)
    ensures
        r == smaller(a, b),
{
    if is_nan(a) {
        b
    } else if is_nan(b) {
        a
    } else if lt(b, a) {
        b
    } else {
        a
    }
}

} // verus!
