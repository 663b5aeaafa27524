//! The core's sine: a fixed-point evaluation of sin(2*pi*x) for a normalized
//! phase x in [0, 1].
//!
//! The phase is folded onto the quarter wave around zero, where the odd
//! Maclaurin polynomial through the ninth order is evaluated by Horner's
//! rule; the result is clamped to the unit range, so every sample the
//! oscillators emit is bounded by construction.

use vstd::prelude::*;

verus! {

use crate::fx::{FX_ONE, FX_HALF, FX_QUARTER, fx_mul, fx_mul_spec};
use crate::fx::{lemma_fx_mul_bound, lemma_mul_fits};
use vstd::math::abs;

/// 2*pi in fixed point: the first-order coefficient of sin(2*pi*t).
pub const SIN_C1: i64 = 6746518852;

/// The third-order Maclaurin coefficient of sin(2*pi*t), in fixed point.
pub const SIN_C3: i64 = -44390314770;

/// The fifth-order Maclaurin coefficient of sin(2*pi*t), in fixed point.
pub const SIN_C5: i64 = 87622969205;

/// The seventh-order Maclaurin coefficient of sin(2*pi*t), in fixed point.
pub const SIN_C7: i64 = -82362289762;

/// The ninth-order Maclaurin coefficient of sin(2*pi*t), in fixed point.
pub const SIN_C9: i64 = 45160178751;

/// `v` clamped to the unit range.
pub open spec fn clamp_unit_spec(v: int) -> int {
    if v > FX_ONE as int {
        FX_ONE as int
    } else if v < -(FX_ONE as int) {
        -(FX_ONE as int)
    } else {
        v
    }
}

/// The quarter-wave polynomial: sin(2*pi*t) for t in [-1/4, 1/4].
pub open spec fn sin_poly_spec(t: int) -> int {
    let z = fx_mul_spec(t, t);
    let a7 = SIN_C7 + fx_mul_spec(z, SIN_C9 as int);
    let a5 = SIN_C5 + fx_mul_spec(z, a7);
    let a3 = SIN_C3 + fx_mul_spec(z, a5);
    let a1 = SIN_C1 + fx_mul_spec(z, a3);
    fx_mul_spec(t, a1)
}

/// The phase folded onto the quarter wave: the argument handed to the
/// polynomial for a phase x in [0, 1].
pub open spec fn sin_fold_spec(x: int) -> int {
    if x <= FX_QUARTER as int {
        x
    } else if x < 3 * (FX_QUARTER as int) {
        FX_HALF as int - x
    } else {
        x - FX_ONE as int
    }
}

/// sin(2*pi*x) for a normalized phase x in [0, 1], as this core computes it.
pub open spec fn sin2pi_spec(x: int) -> int {
    clamp_unit_spec(sin_poly_spec(sin_fold_spec(x)))
}

/// Evaluates sin(2*pi*x) for a normalized phase x in [0, 1].
///
/// The result is always within one unit of either sign, and the zeros at
/// phase 0, 1/2 and 1 are exact, so a wave that starts a period where the
/// last one ended is continuous across the seam.
pub fn sin2pi(x: i64) -> (r: i64)
    requires
        0 <= x <= FX_ONE,
    ensures
        r == sin2pi_spec(x as int),
        -FX_ONE <= r <= FX_ONE,
        x == 0 || x == FX_HALF || x == FX_ONE ==> r == 0,
        x == FX_QUARTER ==> r == FX_ONE,
{
    let t: i64 = if x <= FX_QUARTER {
        x
    } else if x < FX_HALF + FX_QUARTER {
        FX_HALF - x
    } else {
        x - FX_ONE
    };
    proof {
        assert(abs(t as int) <= FX_QUARTER as int);
        lemma_mul_fits(t as int, t as int, FX_QUARTER as int, FX_QUARTER as int);
    }
    let z: i64 = fx_mul(t, t);
    proof {
        lemma_fx_mul_bound(t as int, t as int, FX_QUARTER as int, FX_QUARTER as int);
        assert((t as int) * (t as int) >= 0) by (nonlinear_arith);
        vstd::arithmetic::div_mod::lemma_div_pos_is_pos((t as int) * (t as int), FX_ONE as int);
        lemma_mul_fits(z as int, SIN_C9 as int, 0x400_0000, 46000000000);
    }
    let m9: i64 = fx_mul(z, SIN_C9);
    proof {
        lemma_fx_mul_bound(z as int, SIN_C9 as int, 0x400_0000, 46000000000);
    }
    let a7: i64 = SIN_C7 + m9;
    proof {
        lemma_mul_fits(z as int, a7 as int, 0x400_0000, 86000000000);
    }
    let m7: i64 = fx_mul(z, a7);
    proof {
        lemma_fx_mul_bound(z as int, a7 as int, 0x400_0000, 86000000000);
    }
    let a5: i64 = SIN_C5 + m7;
    proof {
        lemma_mul_fits(z as int, a5 as int, 0x400_0000, 94000000000);
    }
    let m5: i64 = fx_mul(z, a5);
    proof {
        lemma_fx_mul_bound(z as int, a5 as int, 0x400_0000, 94000000000);
    }
    let a3: i64 = SIN_C3 + m5;
    proof {
        lemma_mul_fits(z as int, a3 as int, 0x400_0000, 51000000000);
    }
    let m3: i64 = fx_mul(z, a3);
    proof {
        lemma_fx_mul_bound(z as int, a3 as int, 0x400_0000, 51000000000);
    }
    let a1: i64 = SIN_C1 + m3;
    proof {
        lemma_mul_fits(t as int, a1 as int, FX_QUARTER as int, 10000000000);
    }
    let y: i64 = fx_mul(t, a1);
    proof {
        if x == FX_QUARTER {
            assert(z == 67108864);
            assert((z as int) * (SIN_C9 as int) == 3030648294016548864) by (nonlinear_arith)
                requires
                    z == 67108864,
            ;
            assert(m9 == 2822511171 && a7 == -79539778591);
            assert((z as int) * (a7 as int) == -5337824184053530624) by (nonlinear_arith)
                requires
                    z == 67108864,
                    a7 == -79539778591i64,
            ;
            assert(m7 == -4971236161 && a5 == 82651733044);
            assert((z as int) * (a5 as int) == 5546663912214102016) by (nonlinear_arith)
                requires
                    z == 67108864,
                    a5 == 82651733044i64,
            ;
            assert(m5 == 5165733315 && a3 == -39224581455);
            assert((z as int) * (a3 as int) == -2632317102320517120) by (nonlinear_arith)
                requires
                    z == 67108864,
                    a3 == -39224581455i64,
            ;
            assert(m3 == -2451536340 && a1 == 4294982512);
            assert((t as int) * (a1 as int) == 1152925589120745472) by (nonlinear_arith)
                requires
                    t == FX_QUARTER,
                    a1 == 4294982512i64,
            ;
            assert(y == 1073745628);
        }
    }
    if y > FX_ONE {
        FX_ONE
    } else if y < -FX_ONE {
        -FX_ONE
    } else {
        y
    }
}

} // verus!
