//! The phase-distortion remap: a piecewise-linear, two-segment warp of a
//! normalized phase around a movable pivot.
//!
//! For a phase below the pivot the map rises linearly from 0 to 1/2; from
//! the pivot on it rises linearly from 1/2 to 1. A pivot of exactly 0
//! disables only the first segment and a pivot of exactly 1 only the
//! second; a phase landing in a disabled segment maps to 0. The asymmetry
//! of that degenerate policy is deliberate and kept exactly.

use vstd::prelude::*;

verus! {

use crate::fx::{FX_ONE, FX_HALF, div_trunc};
use vstd::arithmetic::div_mod::{lemma_div_is_ordered, lemma_div_multiples_vanish,
    lemma_div_pos_is_pos};
use vstd::arithmetic::mul::lemma_mul_inequality;

/// The piecewise-linear warp of phase `phs` around pivot `wmp`:
/// (1/2 / wmp) * phs below the pivot, (1/2 / (1 - wmp)) * (phs - wmp) + 1/2
/// from the pivot on, and 0 on a degenerate segment.
pub open spec fn warp_map_spec(phs: int, wmp: int) -> int {
    if phs < wmp {
        if wmp != 0 {
            div_trunc((FX_HALF as int) * phs, wmp)
        } else {
            0
        }
    } else {
        if wmp != FX_ONE as int {
            div_trunc((FX_HALF as int) * (phs - wmp), FX_ONE as int - wmp) + FX_HALF as int
        } else {
            0
        }
    }
}

/// Applies the warp map to a normalized phase.
///
/// Whatever the pivot — even one pushed outside the unit range by a drifted
/// modulator — the result of warping a normalized phase stays in [0, 1], so
/// it is always a valid sine argument.
pub fn warp_map(phs: i64, wmp: i64) -> (r: i64)
    requires
        0 <= phs <= FX_ONE,
        -0x10_0000_0000 <= wmp <= 0x10_0000_0000,
    ensures
        r == warp_map_spec(phs as int, wmp as int),
        0 <= r <= FX_ONE,
{
    if phs < wmp {
        // The pivot is above a nonnegative phase, hence strictly positive;
        // the pivot of zero that the guard excludes can only be reached by
        // a negative phase, which the precondition rules out.
        let num: u128 = (phs as u128) * (FX_HALF as u128);
        let q: u128 = num / (wmp as u128);
        proof {
            lemma_mul_inequality(phs as int, wmp as int, FX_HALF as int);
            lemma_div_is_ordered((phs as int) * (FX_HALF as int), (wmp as int) * (
            FX_HALF as int), wmp as int);
            lemma_div_multiples_vanish(FX_HALF as int, wmp as int);
            lemma_div_pos_is_pos((phs as int) * (FX_HALF as int), wmp as int);
        }
        q as i64
    } else if wmp != FX_ONE {
        let den: i64 = FX_ONE - wmp;
        let num: u128 = ((phs - wmp) as u128) * (FX_HALF as u128);
        let q: u128 = num / (den as u128);
        proof {
            lemma_mul_inequality(phs as int - wmp as int, den as int, FX_HALF as int);
            lemma_div_is_ordered((phs as int - wmp as int) * (FX_HALF as int), (den as int) * (
            FX_HALF as int), den as int);
            lemma_div_multiples_vanish(FX_HALF as int, den as int);
            lemma_div_pos_is_pos((phs as int - wmp as int) * (FX_HALF as int), den as int);
        }
        (q as i64) + FX_HALF
    } else {
        0
    }
}

/// The warp map is continuous across the phase wrap: for every pivot
/// strictly inside the unit range, phase 0 maps to exactly 0 and phase 1 to
/// exactly 1 — and the sine of the core sends both ends to the same sample.
pub proof fn lemma_warp_map_boundaries(wmp: int)
    requires
        0 < wmp < FX_ONE as int,
    ensures
        warp_map_spec(0, wmp) == 0,
        warp_map_spec(FX_ONE as int, wmp) == FX_ONE as int,
{
    vstd::arithmetic::div_mod::lemma_div_of0(wmp);
    lemma_div_multiples_vanish(FX_HALF as int, FX_ONE as int - wmp);
}

/// The two segments meet at the pivot: the second segment starts at exactly
/// one half, the value the first segment rises toward.
pub proof fn lemma_warp_map_junction(wmp: int)
    requires
        0 <= wmp < FX_ONE as int,
    ensures
        warp_map_spec(wmp, wmp) == FX_HALF as int,
        forall|p: int| 0 <= p < wmp ==> warp_map_spec(p, wmp) <= FX_HALF as int,
{
    vstd::arithmetic::div_mod::lemma_div_of0(FX_ONE as int - wmp);
    assert forall|p: int| 0 <= p < wmp implies warp_map_spec(p, wmp) <= FX_HALF as int by {
        lemma_mul_inequality(p, wmp, FX_HALF as int);
        lemma_div_is_ordered(p * (FX_HALF as int), wmp * (FX_HALF as int), wmp);
        lemma_div_multiples_vanish(FX_HALF as int, wmp);
        lemma_div_pos_is_pos(p * (FX_HALF as int), wmp);
    }
}

/// Across the phase wrap the emitted wave is continuous: for every pivot
/// strictly inside the unit range, the warped sine reads the same sample —
/// exactly zero — at phase 0 and at phase 1, so a cycle ends where the next
/// one begins.
pub proof fn lemma_wave_continuous_at_wrap(wmp: int)
    requires
        0 < wmp < FX_ONE as int,
    ensures
        crate::trig::sin2pi_spec(warp_map_spec(0, wmp)) == 0,
        crate::trig::sin2pi_spec(warp_map_spec(FX_ONE as int, wmp)) == 0,
{
    lemma_warp_map_boundaries(wmp);
    crate::fx::lemma_fx_mul_zero(crate::fx::FX_ONE as int);
    let a1 = crate::trig::SIN_C1 as int + crate::fx::fx_mul_spec(
        crate::fx::fx_mul_spec(0, 0),
        crate::trig::SIN_C3 as int + crate::fx::fx_mul_spec(
            crate::fx::fx_mul_spec(0, 0),
            crate::trig::SIN_C5 as int + crate::fx::fx_mul_spec(
                crate::fx::fx_mul_spec(0, 0),
                crate::trig::SIN_C7 as int + crate::fx::fx_mul_spec(
                    crate::fx::fx_mul_spec(0, 0),
                    crate::trig::SIN_C9 as int,
                ),
            ),
        ),
    );
    crate::fx::lemma_fx_mul_zero(a1);
}

/// The degenerate-pivot policy, exactly as the map defines it: a pivot of 0
/// zeroes only phases below it (there are none in the unit range, which is
/// why such phases fall through to the second segment), and a pivot of 1
/// zeroes only phases at or above it.
pub proof fn lemma_warp_map_degenerate(phs: int)
    ensures
        phs < 0 ==> warp_map_spec(phs, 0) == 0,
        0 <= phs ==> warp_map_spec(phs, 0) == div_trunc((FX_HALF as int) * phs, FX_ONE as int)
            + FX_HALF as int,
        phs >= FX_ONE as int ==> warp_map_spec(phs, FX_ONE as int) == 0,
        phs < FX_ONE as int ==> warp_map_spec(phs, FX_ONE as int) == div_trunc(
            (FX_HALF as int) * phs, FX_ONE as int),
{
}

} // verus!
