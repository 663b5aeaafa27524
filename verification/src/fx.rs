//! Fixed-point scalar arithmetic for the synthesis core.
//!
//! Every signal, frequency and coefficient in this crate is carried as an
//! `i64` holding a real value scaled by `FX_ONE` (a Q30 fixed-point number).
//! Multiplication truncates toward zero, so magnitudes never grow under
//! scaling — the fact the boundedness proofs of the oscillators rest on.

use vstd::prelude::*;

verus! {

use vstd::arithmetic::div_mod::{lemma_div_is_ordered, lemma_div_multiples_vanish};
use vstd::arithmetic::mul::lemma_mul_upper_bound;
use vstd::math::abs;

/// One fixed-point unit: the representation of the real number 1.0.
pub const FX_ONE: i64 = 0x4000_0000;

/// The representation of 0.5.
pub const FX_HALF: i64 = 0x2000_0000;

/// The representation of 0.25.
pub const FX_QUARTER: i64 = 0x1000_0000;

/// Saturation rail for oscillator state variables: sixteen units, far above
/// any amplitude the recurrences produce in practice, so state arithmetic
/// stays inside `i64` without ever shaping the audible signal.
pub const FX_RAIL: i64 = 0x4_0000_0000;

/// Quotient of `n` by `d`, truncated toward zero, as Rust's integer and
/// floating-point divisions both round.
pub open spec fn div_trunc(n: int, d: int) -> int
    recommends
        1 <= d,
{
    if n >= 0 {
        n / d
    } else {
        -((-n) / d)
    }
}

/// The fixed-point product of `a` and `b`: their integer product rescaled by
/// one unit, truncated toward zero.
pub open spec fn fx_mul_spec(a: int, b: int) -> int {
    div_trunc(a * b, FX_ONE as int)
}

/// `v` clamped to the saturation rail.
pub open spec fn sat_spec(v: int) -> int {
    if v > FX_RAIL as int {
        FX_RAIL as int
    } else if v < -(FX_RAIL as int) {
        -(FX_RAIL as int)
    } else {
        v
    }
}

/// Magnitude of `a` as an unsigned value.
fn abs_u128(a: i64) -> (r: u128)
    ensures
        r == abs(a as int),
{
    if a >= 0 {
        a as u128
    } else {
        (-(a as i128)) as u128
    }
}

/// Truncating division has the magnitude of the Euclidean quotient of the
/// magnitudes.
pub proof fn lemma_div_trunc_mag(n: int, d: int)
    requires
        1 <= d,
    ensures
        abs(div_trunc(n, d)) as int == (abs(n) as int) / d,
{
    if n >= 0 {
        vstd::arithmetic::div_mod::lemma_div_pos_is_pos(n, d);
    } else {
        vstd::arithmetic::div_mod::lemma_div_pos_is_pos(-n, d);
    }
}

/// A bound on the operands of a fixed-point product bounds the product.
pub proof fn lemma_fx_mul_bound(a: int, b: int, am: int, bm: int)
    requires
        abs(a) <= am,
        abs(b) <= bm,
    ensures
        abs(fx_mul_spec(a, b)) <= (am * bm) / (FX_ONE as int),
{
    assert(abs(a * b) == abs(a) * abs(b)) by (nonlinear_arith);
    lemma_mul_upper_bound(abs(a) as int, am, abs(b) as int, bm);
    lemma_div_trunc_mag(a * b, FX_ONE as int);
    lemma_div_is_ordered(abs(a * b) as int, am * bm, FX_ONE as int);
}

/// Zero times anything is zero, in fixed point too.
pub proof fn lemma_fx_mul_zero(b: int)
    ensures
        fx_mul_spec(0, b) == 0,
{
    vstd::arithmetic::mul::lemma_mul_by_zero_is_zero(b);
    vstd::arithmetic::div_mod::lemma_div_of0(FX_ONE as int);
}

/// A fixed-point product of nonnegative factors is nonnegative.
pub proof fn lemma_fx_mul_nonneg(a: int, b: int)
    requires
        0 <= a,
        0 <= b,
    ensures
        0 <= fx_mul_spec(a, b),
{
    vstd::arithmetic::mul::lemma_mul_nonnegative(a, b);
    vstd::arithmetic::div_mod::lemma_div_pos_is_pos(a * b, FX_ONE as int);
}

/// Operand magnitude bounds keep a product inside the range `fx_mul` accepts.
pub proof fn lemma_mul_fits(a: int, b: int, am: int, bm: int)
    requires
        abs(a) <= am,
        abs(b) <= bm,
        am * bm <= (i64::MAX as int) * (FX_ONE as int),
    ensures
        -((i64::MAX as int) * (FX_ONE as int)) <= a * b <= (i64::MAX as int) * (FX_ONE as int),
{
    assert(-(am * bm) <= a * b <= am * bm) by (nonlinear_arith)
        requires
            abs(a) <= am,
            abs(b) <= bm,
    ;
}

/// Multiplies two fixed-point values, truncating toward zero.
pub fn fx_mul(a: i64, b: i64) -> (r: i64)
    requires
        -((i64::MAX as int) * (FX_ONE as int)) <= (a as int) * (b as int),
        (a as int) * (b as int) <= (i64::MAX as int) * (FX_ONE as int),
    ensures
        r == fx_mul_spec(a as int, b as int),
{
    let ghost prod: int = (a as int) * (b as int);
    let neg: bool = (a < 0) != (b < 0);
    let am: u128 = abs_u128(a);
    let bm: u128 = abs_u128(b);
    proof {
        assert(am * bm == abs(prod) && am * bm <= 0x7fff_ffff_ffff_ffff_8000_0000_0000_0000)
            by (nonlinear_arith)
            requires
                am == abs(a as int),
                bm == abs(b as int),
                prod == (a as int) * (b as int),
                -((i64::MAX as int) * (FX_ONE as int)) <= prod <= (i64::MAX as int) * (
                FX_ONE as int),
                am <= 0x8000_0000_0000_0000,
                bm <= 0x8000_0000_0000_0000,
        ;
    }
    let p: u128 = am * bm;
    let q: u128 = p / (FX_ONE as u128);
    proof {
        lemma_div_is_ordered(p as int, (i64::MAX as int) * (FX_ONE as int), FX_ONE as int);
        lemma_div_multiples_vanish(i64::MAX as int, FX_ONE as int);
        lemma_div_trunc_mag(prod, FX_ONE as int);
        assert((prod >= 0 && !neg) || (prod <= 0 && neg) || (a as int) * (b as int) == 0)
            by (nonlinear_arith)
            requires
                prod == (a as int) * (b as int),
                neg == ((a < 0) != (b < 0)),
        ;
    }
    if neg {
        -(q as i64)
    } else {
        q as i64
    }
}

/// Euclidean division of a nonnegative value by a positive one.
pub fn div_nn(n: i64, d: i64) -> (r: i64)
    requires
        0 <= n,
        1 <= d,
    ensures
        r == (n as int) / (d as int),
        0 <= r <= n,
{
    proof {
        lemma_div_is_ordered(n as int, i64::MAX as int, d as int);
        vstd::arithmetic::div_mod::lemma_div_nonincreasing(n as int, d as int);
        vstd::arithmetic::div_mod::lemma_div_pos_is_pos(n as int, d as int);
    }
    ((n as u64) / (d as u64)) as i64
}

/// Halves a value, truncating toward zero, as scaling by a real 0.5 does.
pub fn half_trunc(t: i64) -> (r: i64)
    ensures
        r == div_trunc(t as int, 2),
{
    if t >= 0 {
        proof {
            vstd::arithmetic::div_mod::lemma_div_nonincreasing(t as int, 2);
            vstd::arithmetic::div_mod::lemma_div_pos_is_pos(t as int, 2);
        }
        ((t as u64) / 2) as i64
    } else {
        let m: u128 = (-(t as i128)) as u128;
        proof {
            vstd::arithmetic::div_mod::lemma_div_nonincreasing(m as int, 2);
            vstd::arithmetic::div_mod::lemma_div_pos_is_pos(m as int, 2);
        }
        -((m / 2) as i64)
    }
}

/// Clamps a value to the saturation rail.
pub fn saturate(v: i64) -> (r: i64)
    ensures
        r == sat_spec(v as int),
        -FX_RAIL <= r <= FX_RAIL,
{
    if v > FX_RAIL {
        FX_RAIL
    } else if v < -FX_RAIL {
        -FX_RAIL
    } else {
        v
    }
}

} // verus!
