//! Equal-tempered pitch: converting a note number to a frequency,
//! 440 * 2^((note - 69) / 12), in fixed point.
//!
//! The note is split into whole octaves and a fractional remainder; the
//! remainder's power of two comes from a quartic polynomial matched to both
//! ends of the octave, and the octaves shift the result.

use vstd::prelude::*;

verus! {

use crate::fx::{FX_ONE, fx_mul, fx_mul_spec, div_nn, lemma_fx_mul_nonneg, lemma_fx_mul_bound,
    lemma_mul_fits};
use vstd::arithmetic::div_mod::{lemma_div_is_ordered, lemma_div_pos_is_pos,
    lemma_fundamental_div_mod, lemma_fundamental_div_mod_converse};
use vstd::arithmetic::mul::lemma_mul_upper_bound;

/// Twelve fixed-point units: one octave of semitones.
pub const OCTAVE: i64 = 12 * 0x4000_0000;

/// ln 2 in fixed point: the first-order coefficient of 2^r.
pub const EXP2_E1: i64 = 744261117;

/// (ln 2)^2 / 2 in fixed point: the second-order coefficient of 2^r.
pub const EXP2_E2: i64 = 257941247;

/// (ln 2)^3 / 6 in fixed point: the third-order coefficient of 2^r.
pub const EXP2_E3: i64 = 59597082;

/// The fourth-order coefficient of 2^r, chosen so the polynomial lands on
/// exactly 2 at a whole octave.
pub const EXP2_E4: i64 = 11942375;

/// 2^k for a whole-number exponent.
pub open spec fn pow2i(k: nat) -> int
    decreases k,
{
    if k == 0 {
        1
    } else {
        2 * pow2i((k - 1) as nat)
    }
}

/// 2^r for a fractional exponent r in [0, 1), by the quartic polynomial.
pub open spec fn exp2_frac_spec(r: int) -> int {
    FX_ONE as int + fx_mul_spec(
        r,
        EXP2_E1 as int + fx_mul_spec(
            r,
            EXP2_E2 as int + fx_mul_spec(r, EXP2_E3 as int + fx_mul_spec(r, EXP2_E4 as int)),
        ),
    )
}

/// The frequency of a note number: 440 * 2^((nn - 69) / 12), with the
/// exponent split into whole octaves (Euclidean, so the remainder is never
/// negative) and a fraction of one.
pub open spec fn mtof_spec(nn: int) -> int {
    let semi = nn - 69 * (FX_ONE as int);
    let oct = semi / (OCTAVE as int);
    let rem = semi % (OCTAVE as int);
    let base = 440 * exp2_frac_spec(rem / 12);
    if oct >= 0 {
        base * pow2i(oct as nat)
    } else {
        base / pow2i((-oct) as nat)
    }
}

/// Converts a note number (middle C is 60, in fixed point) to a frequency
/// in fixed-point hertz. The note 69 lands on exactly 440.
pub fn mtof(nn: i64) -> (freq: i64)
    requires
        0 <= nn <= 128 * FX_ONE,
    ensures
        freq == mtof_spec(nn as int),
        0 < freq <= 14500 * (FX_ONE as int),
        nn == 69 * FX_ONE ==> freq == 440 * FX_ONE,
        nn == 48 * FX_ONE ==> freq == 140459691350,
{
    let semi: i64 = nn - 69 * FX_ONE;
    let oct_down: bool;
    let oct_mag: i64;
    let rem: i64;
    if semi >= 0 {
        let q: i64 = div_nn(semi, OCTAVE);
        proof {
            lemma_fundamental_div_mod(semi as int, OCTAVE as int);
            lemma_div_is_ordered(semi as int, 59 * (FX_ONE as int), OCTAVE as int);
            lemma_mul_fits(q as int, OCTAVE as int, 4, OCTAVE as int);
        }
        oct_down = false;
        oct_mag = q;
        rem = semi - q * OCTAVE;
    } else {
        let m: i64 = -semi;
        let q0: i64 = div_nn(m, OCTAVE);
        proof {
            lemma_fundamental_div_mod(m as int, OCTAVE as int);
            lemma_div_is_ordered(m as int, 69 * (FX_ONE as int), OCTAVE as int);
            lemma_mul_fits(q0 as int, OCTAVE as int, 6, OCTAVE as int);
        }
        let rho: i64 = m - q0 * OCTAVE;
        if rho == 0 {
            oct_down = true;
            oct_mag = q0;
            rem = 0;
            proof {
                lemma_fundamental_div_mod_converse(semi as int, OCTAVE as int, -(q0 as int), 0);
            }
        } else {
            oct_down = true;
            oct_mag = q0 + 1;
            rem = OCTAVE - rho;
            proof {
                lemma_fundamental_div_mod_converse(
                    semi as int,
                    OCTAVE as int,
                    -(q0 as int) - 1,
                    rem as int,
                );
            }
        }
    }
    let r: i64 = div_nn(rem, 12);
    proof {
        lemma_div_is_ordered(rem as int, OCTAVE as int - 1, 12);
        lemma_fx_mul_nonneg(r as int, EXP2_E4 as int);
        lemma_fx_mul_bound(r as int, EXP2_E4 as int, FX_ONE as int, EXP2_E4 as int);
        lemma_mul_fits(r as int, EXP2_E4 as int, FX_ONE as int, EXP2_E4 as int);
    }
    let m4: i64 = fx_mul(r, EXP2_E4);
    let a3: i64 = EXP2_E3 + m4;
    proof {
        lemma_fx_mul_nonneg(r as int, a3 as int);
        lemma_fx_mul_bound(r as int, a3 as int, FX_ONE as int, 71539457);
        lemma_mul_fits(r as int, a3 as int, FX_ONE as int, 71539457);
    }
    let m3: i64 = fx_mul(r, a3);
    let a2: i64 = EXP2_E2 + m3;
    proof {
        lemma_fx_mul_nonneg(r as int, a2 as int);
        lemma_fx_mul_bound(r as int, a2 as int, FX_ONE as int, 329480704);
        lemma_mul_fits(r as int, a2 as int, FX_ONE as int, 329480704);
    }
    let m2: i64 = fx_mul(r, a2);
    let a1: i64 = EXP2_E1 + m2;
    proof {
        lemma_fx_mul_nonneg(r as int, a1 as int);
        lemma_fx_mul_bound(r as int, a1 as int, FX_ONE as int, 1073741821);
        lemma_mul_fits(r as int, a1 as int, FX_ONE as int, 1073741821);
    }
    let m1: i64 = fx_mul(r, a1);
    let e2r: i64 = FX_ONE + m1;
    let base: i64 = 440 * e2r;
    proof {
        if nn == 69 * FX_ONE {
            assert(semi == 0 && !oct_down && oct_mag == 0 && rem == 0 && r == 0);
            crate::fx::lemma_fx_mul_zero(EXP2_E4 as int);
            crate::fx::lemma_fx_mul_zero(a3 as int);
            crate::fx::lemma_fx_mul_zero(a2 as int);
            crate::fx::lemma_fx_mul_zero(a1 as int);
            assert(m4 == 0 && a3 == EXP2_E3 && m3 == 0 && a2 == EXP2_E2 && m2 == 0);
            assert(a1 == EXP2_E1 && m1 == 0 && e2r == FX_ONE && base == 440 * FX_ONE);
        }
        if nn == 48 * FX_ONE {
            assert(semi == -22548578304i64 && oct_down && oct_mag == 2);
            assert(rem == 3221225472i64 && r == 268435456i64);
            assert((r as int) * (EXP2_E4 as int) == 3205756878848000) by (nonlinear_arith)
                requires
                    r == 268435456i64,
            ;
            assert(m4 == 2985593 && a3 == 62582675);
            assert((r as int) * (a3 as int) == 16799408901324800) by (nonlinear_arith)
                requires
                    r == 268435456i64,
                    a3 == 62582675i64,
            ;
            assert(m3 == 15645668 && a2 == 273586915);
            assert((r as int) * (a2 as int) == 73440428283658240) by (nonlinear_arith)
                requires
                    r == 268435456i64,
                    a2 == 273586915i64,
            ;
            assert(m2 == 68396728 && a1 == 812657845);
            assert((r as int) * (a1 as int) == 218146179194552320) by (nonlinear_arith)
                requires
                    r == 268435456i64,
                    a1 == 812657845i64,
            ;
            assert(m1 == 203164461 && e2r == 1276906285 && base == 561838765400);
        }
        assert(pow2i(0) == 1);
        assert(pow2i(1) == 2);
        assert(pow2i(2) == 4);
        assert(pow2i(3) == 8);
        assert(pow2i(4) == 16);
        assert(pow2i(5) == 32);
        assert(pow2i(6) == 64);
    }
    if oct_down {
        let div: i64 = if oct_mag == 0 {
            1
        } else if oct_mag == 1 {
            2
        } else if oct_mag == 2 {
            4
        } else if oct_mag == 3 {
            8
        } else if oct_mag == 4 {
            16
        } else if oct_mag == 5 {
            32
        } else {
            64
        };
        let f: i64 = div_nn(base, div);
        proof {
            lemma_div_pos_is_pos(base as int, div as int);
            vstd::arithmetic::div_mod::lemma_div_non_zero(base as int, div as int);
        }
        f
    } else {
        let mult: i64 = if oct_mag == 0 {
            1
        } else if oct_mag == 1 {
            2
        } else if oct_mag == 2 {
            4
        } else if oct_mag == 3 {
            8
        } else {
            16
        };
        proof {
            lemma_mul_upper_bound(base as int, 900 * (FX_ONE as int), mult as int, 16);
            vstd::arithmetic::mul::lemma_mul_increases(mult as int, base as int);
        }
        base * mult
    }
}

} // verus!
