//! Fixed-point arithmetic: a value `v` stands for the real number `v / UNIT`.
use vstd::prelude::*;

verus! {

/// One whole unit: values count billionths.
pub const UNIT: i64 = 1_000_000_000;

/// Integer division rounding toward zero, as Rust's `/` does (`d > 0`).
pub open spec fn trunc_div(a: int, d: int) -> int {
    if a >= 0 {
        a / d
    } else {
        -((-a) / d)
    }
}

/// The fixed-point product of `a` and `b`.
pub open spec fn fx_mul(a: int, b: int) -> int {
    trunc_div(a * b, UNIT as int)
}

/// The fixed-point quotient of `a` by `b` (`b > 0`).
pub open spec fn fx_div(a: int, b: int) -> int {
    trunc_div(a * UNIT, b)
}

/// `x` limited to the closed interval `[lo, hi]` (`lo <= hi`).
pub open spec fn clamp(x: int, lo: int, hi: int) -> int {
    if x < lo {
        lo
    } else if x > hi {
        hi
    } else {
        x
    }
}

/// The larger of `x` and zero.
pub open spec fn nonneg(x: int) -> int {
    if x < 0 {
        0
    } else {
        x
    }
}

pub open spec fn fits_i64(x: int) -> bool {
    i64::MIN <= x <= i64::MAX
}

pub proof fn lemma_trunc_div_bound(a: int, d: int)
    requires
        d >= 1,
    ensures
        a >= 0 ==> 0 <= trunc_div(a, d) <= a,
        a < 0 ==> a <= trunc_div(a, d) <= 0,
{
    if a >= 0 {
        vstd::arithmetic::div_mod::lemma_div_pos_is_pos(a, d);
        vstd::arithmetic::div_mod::lemma_div_is_ordered_by_denominator(a, 1, d);
    } else {
        vstd::arithmetic::div_mod::lemma_div_pos_is_pos(-a, d);
        vstd::arithmetic::div_mod::lemma_div_is_ordered_by_denominator(-a, 1, d);
    }
}

/// Integer division rounding toward zero.
pub fn div_trunc(a: i128, d: i128) -> (r: i128)
    requires
        d > 0,
        a > i128::MIN,
    ensures
        r == trunc_div(a as int, d as int),
{
    proof {
        lemma_trunc_div_bound(a as int, d as int);
    }
    if a >= 0 {
        a / d
    } else {
        let q = (-a) / d;
        -q
    }
}

/// A fixed-point product of two `i64` values stays well inside `i128`.
pub proof fn lemma_fx_mul_bound(a: int, b: int)
    requires
        fits_i64(a),
        fits_i64(b),
    ensures
        -FX_MUL_BOUND <= fx_mul(a, b) <= FX_MUL_BOUND,
{
    let p = a * b;
    assert(-0x4000_0000_0000_0000_0000_0000_0000_0000 <= p <= 0x4000_0000_0000_0000_0000_0000_0000_0000)
        by (nonlinear_arith)
        requires
            i64::MIN <= a <= i64::MAX,
            i64::MIN <= b <= i64::MAX,
            p == a * b,
    ;
    let m = if p >= 0 { p } else { -p };
    vstd::arithmetic::div_mod::lemma_div_is_ordered(m, (FX_MUL_BOUND as int) * 1_000_000_000, 1_000_000_000);
    vstd::arithmetic::div_mod::lemma_div_by_multiple(FX_MUL_BOUND as int, 1_000_000_000);
    vstd::arithmetic::div_mod::lemma_div_pos_is_pos(m, 1_000_000_000);
}

/// Bound on the magnitude of a fixed-point product of two `i64` values.
pub const FX_MUL_BOUND: i128 = 0x2_0000_0000_0000_0000_0000_0000;

/// Fixed-point product, exact up to truncation toward zero.
pub fn mul_fx(a: i64, b: i64) -> (r: i128)
    ensures
        r == fx_mul(a as int, b as int),
        -FX_MUL_BOUND <= r <= FX_MUL_BOUND,
{
    proof {
        lemma_fx_mul_bound(a as int, b as int);
    }
    proof {
        assert(-0x4000_0000_0000_0000_0000_0000_0000_0000 <= (a as int) * (b as int)
            <= 0x4000_0000_0000_0000_0000_0000_0000_0000) by (nonlinear_arith)
            requires
                i64::MIN <= a <= i64::MAX,
                i64::MIN <= b <= i64::MAX,
        ;
    }
    let p = (a as i128) * (b as i128);
    div_trunc(p, UNIT as i128)
}

/// Fixed-point quotient `a / b` for `b > 0`, truncated toward zero.
pub fn div_fx(a: i64, b: i64) -> (r: i128)
    requires
        b > 0,
    ensures
        r == fx_div(a as int, b as int),
{
    proof {
        assert(-10_000_000_000_000_000_000_000_000_000 <= (a as int) * 1_000_000_000
            <= 10_000_000_000_000_000_000_000_000_000);
    }
    let p = (a as i128) * (UNIT as i128);
    div_trunc(p, b as i128)
}

/// Fixed-point product of an `i64` and a wider value below `2^64` in magnitude.
pub fn mul_fx_wide(a: i64, b: i128) -> (r: i128)
    requires
        -0xFFFF_FFFF_FFFF_FFFF <= b <= 0xFFFF_FFFF_FFFF_FFFF,
    ensures
        r == fx_mul(a as int, b as int),
        -WIDE_MUL_BOUND <= r <= WIDE_MUL_BOUND,
{
    let ghost p = (a as int) * (b as int);
    proof {
        assert(-0x7FFF_FFFF_FFFF_FFFF_8000_0000_0000_0000 <= p <= 0x7FFF_FFFF_FFFF_FFFF_8000_0000_0000_0000)
            by (nonlinear_arith)
            requires
                i64::MIN <= a <= i64::MAX,
                -0xFFFF_FFFF_FFFF_FFFF <= b <= 0xFFFF_FFFF_FFFF_FFFF,
                p == (a as int) * (b as int),
        ;
        let m = if p >= 0 { p } else { -p };
        vstd::arithmetic::div_mod::lemma_div_is_ordered(m, (WIDE_MUL_BOUND as int) * 1_000_000_000, 1_000_000_000);
        vstd::arithmetic::div_mod::lemma_div_by_multiple(WIDE_MUL_BOUND as int, 1_000_000_000);
        vstd::arithmetic::div_mod::lemma_div_pos_is_pos(m, 1_000_000_000);
    }
    div_trunc((a as i128) * b, UNIT as i128)
}

/// Bound on the magnitude of a fixed-point product from [`mul_fx_wide`].
pub const WIDE_MUL_BOUND: i128 = 0x4_0000_0000_0000_0000_0000_0000;

} // verus!
