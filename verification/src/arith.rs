//! Small exact-arithmetic helpers: truncating division, round-half-away
//! rounding, clamping, and saturating addition.
//!
//! Rounding decisions are pinned here once for the whole pipeline:
//! fractional sub-scores truncate toward zero, and displayed quantities
//! round half away from zero.

use vstd::prelude::*;

verus! {

/// Quotient of `a / d` truncated toward zero (`d > 0`).
pub open spec fn div_trunc_spec(a: int, d: int) -> int {
    if a >= 0 {
        a / d
    } else {
        -((-a) / d)
    }
}

/// `v` clamped to `[lo, hi]`.
pub open spec fn clamp_spec(v: int, lo: int, hi: int) -> int {
    if v < lo {
        lo
    } else if v > hi {
        hi
    } else {
        v
    }
}

/// `a / d` rounded to the nearest integer, half away from zero (`d > 0`).
pub open spec fn round_half_away_spec(a: int, d: int) -> int {
    if a >= 0 {
        (2 * a + d) / (2 * d)
    } else {
        -((2 * -a + d) / (2 * d))
    }
}

/// `i32` addition that saturates at the type bounds instead of wrapping.
pub open spec fn sat_add_i32_spec(a: int, b: int) -> int {
    clamp_spec(a + b, -0x8000_0000, 0x7fff_ffff)
}

/// Truncating division on `i128`, computed on magnitudes so only unsigned
/// division is executed.
pub fn div_trunc(a: i128, d: i128) -> (r: i128)
    requires
        d >= 1,
        a > i128::MIN,
    ensures
        r == div_trunc_spec(a as int, d as int),
        a >= 0 ==> 0 <= r <= a,
        a <= 0 ==> a <= r <= 0,
{
    if a >= 0 {
        let q: u128 = (a as u128) / (d as u128);
        q as i128
    } else {
        let q: u128 = ((-a) as u128) / (d as u128);
        assert(q <= (-a) as u128);
        -(q as i128)
    }
}

/// `a / d` rounded half away from zero (`d > 0`).
pub fn round_half_away(a: i128, d: i128) -> (r: i128)
    requires
        1 <= d < 0x2000_0000_0000_0000_0000_0000_0000_0000,
        -0x2000_0000_0000_0000_0000_0000_0000_0000 < a
            < 0x2000_0000_0000_0000_0000_0000_0000_0000,
    ensures
        r == round_half_away_spec(a as int, d as int),
        a >= 0 ==> 0 <= r <= a + 1,
        a < 0 ==> a - 1 <= r <= 0,
{
    if a >= 0 {
        proof {
            lemma_half_away_quotient_small(a as int, d as int);
        }
        let q: u128 = (2 * (a as u128) + (d as u128)) / (2 * (d as u128));
        q as i128
    } else {
        let m: i128 = -a;
        proof {
            lemma_half_away_quotient_small(m as int, d as int);
        }
        let q: u128 = (2 * (m as u128) + (d as u128)) / (2 * (d as u128));
        -(q as i128)
    }
}

/// For nonnegative `a` and positive `d`, the round-half-away quotient is at
/// most `a + 1`.
proof fn lemma_half_away_quotient_small(a: int, d: int)
    requires
        a >= 0,
        d >= 1,
    ensures
        0 <= (2 * a + d) / (2 * d) <= a + 1,
{
    assert(2 * a + d <= (2 * d) * (a + 1)) by (nonlinear_arith)
        requires
            a >= 0,
            d >= 1,
    ;
    vstd::arithmetic::div_mod::lemma_div_is_ordered(2 * a + d, (2 * d) * (a + 1), 2 * d);
    vstd::arithmetic::div_mod::lemma_div_multiples_vanish(a + 1, 2 * d);
    vstd::arithmetic::div_mod::lemma_div_pos_is_pos(2 * a + d, 2 * d);
}

/// Truncating division keeps a quotient within `[-k, k]` when the dividend
/// lies within `[-k * d, k * d]`.
pub proof fn lemma_div_trunc_bounds(a: int, d: int, k: int)
    requires
        d >= 1,
        k >= 0,
        -(k * d) <= a <= k * d,
    ensures
        -k <= div_trunc_spec(a, d) <= k,
{
    assert(k * d == d * k);
    if a >= 0 {
        vstd::arithmetic::div_mod::lemma_div_is_ordered(a, k * d, d);
        vstd::arithmetic::div_mod::lemma_div_multiples_vanish(k, d);
        vstd::arithmetic::div_mod::lemma_div_pos_is_pos(a, d);
    } else {
        vstd::arithmetic::div_mod::lemma_div_is_ordered(-a, k * d, d);
        vstd::arithmetic::div_mod::lemma_div_multiples_vanish(k, d);
        vstd::arithmetic::div_mod::lemma_div_pos_is_pos(-a, d);
    }
}

/// Bounds on a product from bounds on its factors.
pub proof fn lemma_mul_bound(a: int, b: int, aa: int, bb: int)
    requires
        -aa <= a <= aa,
        -bb <= b <= bb,
        0 <= aa,
        0 <= bb,
    ensures
        -(aa * bb) <= a * b <= aa * bb,
{
    assert(-(aa * bb) <= a * b <= aa * bb) by (nonlinear_arith)
        requires
            -aa <= a <= aa,
            -bb <= b <= bb,
            0 <= aa,
            0 <= bb,
    ;
}

/// Saturating `i32` addition.
pub fn sat_add_i32(a: i32, b: i32) -> (r: i32)
    ensures
        r == sat_add_i32_spec(a as int, b as int),
{
    let wide: i64 = a as i64 + b as i64;
    if wide < -0x8000_0000i64 {
        i32::MIN
    } else if wide > 0x7fff_ffffi64 {
        i32::MAX
    } else {
        wide as i32
    }
}

/// `v` clamped to `i32` range.
pub fn clamp_to_i32(v: i128) -> (r: i32)
    ensures
        r == clamp_spec(v as int, -0x8000_0000, 0x7fff_ffff),
{
    if v < -0x8000_0000i128 {
        i32::MIN
    } else if v > 0x7fff_ffffi128 {
        i32::MAX
    } else {
        v as i32
    }
}

} // verus!
