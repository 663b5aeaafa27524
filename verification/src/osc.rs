//! The magic-circle oscillator: a two-pole digital resonator whose coupled
//! state pair rotates once per period, yielding a stable sinusoid with exact
//! frequency control and no systematic amplitude drift.
//!
//! The same recurrence serves as an audio-rate sinusoid and, at sub-hertz
//! frequencies, as the low-frequency modulator of the ensemble voices.

use vstd::prelude::*;

verus! {

use crate::fx::{FX_ONE, FX_RAIL, fx_mul, fx_mul_spec, sat_spec, saturate, div_nn};
use crate::fx::{lemma_fx_mul_bound, lemma_mul_fits};
use crate::trig::{sin2pi, sin2pi_spec};
use vstd::math::abs;
use vstd::arithmetic::div_mod::{lemma_div_is_ordered, lemma_div_multiples_vanish};

/// A two-pole resonator: two orthogonal state components and the coupling
/// coefficient that sets the rotation per sample.
#[derive(Clone, Copy)]
pub struct MagicCircleOscillator {
    /// The cosine-like state component; starts at one unit.
    pub x1: i64,
    /// The sine-like state component, the emitted sample; starts at zero.
    pub x2: i64,
    /// The coupling coefficient: 2 * sin(pi * frequency / sample rate).
    pub eps: i64,
    /// The sample rate the coupling coefficient is derived against.
    pub sr: u32,
}

impl MagicCircleOscillator {
    /// The state pair sits inside the saturation rail and the coupling
    /// coefficient within two units, as every reachable state does.
    pub open spec fn wf(self) -> bool {
        &&& -FX_RAIL <= self.x1 <= FX_RAIL
        &&& -FX_RAIL <= self.x2 <= FX_RAIL
        &&& abs(self.eps as int) <= 2 * (FX_ONE as int)
    }

    /// The coupling coefficient for a frequency at a sample rate:
    /// 2 * sin(pi * hz / sr), via the core's sine of hz / (2 * sr). A zero
    /// sample rate yields a zero coefficient, quietly disabling the
    /// oscillator rather than failing.
    pub open spec fn eps_spec(hz: int, sr: int) -> int {
        if sr == 0 {
            0
        } else {
            2 * sin2pi_spec(hz / (2 * sr))
        }
    }

    /// The first state component after one update: it absorbs the coupled
    /// second component, then is clamped to the rail.
    pub open spec fn step_x1_spec(s: Self) -> int {
        sat_spec(s.x1 + fx_mul_spec(s.eps as int, s.x2 as int))
    }

    /// The second state component after one update: it sheds the coupling
    /// times the already-updated first component — that ordering is what
    /// holds the pair in quadrature — then is clamped to the rail.
    pub open spec fn step_x2_spec(s: Self) -> int {
        sat_spec(s.x2 - fx_mul_spec(s.eps as int, Self::step_x1_spec(s)))
    }

    /// The whole oscillator after one update.
    pub open spec fn stepped_spec(s: Self) -> Self {
        MagicCircleOscillator {
            x1: Self::step_x1_spec(s) as i64,
            x2: Self::step_x2_spec(s) as i64,
            eps: s.eps,
            sr: s.sr,
        }
    }

    /// How a frequency setter transforms an oscillator: only the coupling
    /// coefficient moves, recomputed from the argument and the sample rate.
    pub open spec fn set_frequency_rel(pre: Self, post: Self, hz: int) -> bool {
        &&& post.eps == Self::eps_spec(hz, pre.sr as int)
        &&& post.x1 == pre.x1
        &&& post.x2 == pre.x2
        &&& post.sr == pre.sr
    }

    /// Creates a unit-amplitude oscillator at zero frequency: the state
    /// starts on the unit circle at (1, 0), so the first samples trace a
    /// cosine-like start once a frequency is set.
    pub fn new(sr: u32) -> (r: Self)
        ensures
            r.x1 == FX_ONE,
            r.x2 == 0,
            r.eps == 0,
            r.sr == sr,
            r.wf(),
    {
        MagicCircleOscillator { x1: FX_ONE, x2: 0, eps: 0, sr }
    }

    /// Recomputes the coupling coefficient for `hz`, from scratch on every
    /// call — nothing is cached across frequency changes.
    pub fn set_frequency(&mut self, hz: i64)
        requires
            0 <= hz,
            old(self).sr != 0 ==> hz <= (old(self).sr as int) * (FX_ONE as int),
        ensures
            Self::set_frequency_rel(*old(self), *final(self), hz as int),
            abs(final(self).eps as int) <= 2 * (FX_ONE as int),
    {
        if self.sr == 0 {
            self.eps = 0;
        } else {
            let den: i64 = 2 * (self.sr as i64);
            let ratio: i64 = div_nn(hz, den);
            proof {
                lemma_mul_fits(self.sr as int, FX_ONE as int, 0x1_0000_0000, FX_ONE as int);
                lemma_div_is_ordered(hz as int, (self.sr as int) * (FX_ONE as int), den as int);
                assert((self.sr as int) * (FX_ONE as int) == (den as int) * (FX_ONE as int / 2))
                    by (nonlinear_arith)
                    requires
                        den == 2 * (self.sr as int),
                ;
                lemma_div_multiples_vanish(FX_ONE as int / 2, den as int);
            }
            let s: i64 = sin2pi(ratio);
            self.eps = 2 * s;
        }
    }

    /// Advances the recurrence one sample and returns the new sine-like
    /// component.
    pub fn tick(&mut self) -> (out: i64)
        requires
            old(self).wf(),
        ensures
            *final(self) == Self::stepped_spec(*old(self)),
            final(self).x1 == Self::step_x1_spec(*old(self)),
            final(self).x2 == Self::step_x2_spec(*old(self)),
            out == final(self).x2,
            final(self).wf(),
    {
        proof {
            lemma_mul_fits(self.eps as int, self.x2 as int, 2 * (FX_ONE as int), FX_RAIL as int);
            lemma_fx_mul_bound(self.eps as int, self.x2 as int, 2 * (FX_ONE as int),
                FX_RAIL as int);
        }
        let m1: i64 = fx_mul(self.eps, self.x2);
        let x1n: i64 = saturate(self.x1 + m1);
        proof {
            lemma_mul_fits(self.eps as int, x1n as int, 2 * (FX_ONE as int), FX_RAIL as int);
            lemma_fx_mul_bound(self.eps as int, x1n as int, 2 * (FX_ONE as int), FX_RAIL as int);
        }
        let m2: i64 = fx_mul(self.eps, x1n);
        let x2n: i64 = saturate(self.x2 - m2);
        self.x1 = x1n;
        self.x2 = x2n;
        x2n
    }
}

/// Setting the same frequency twice in a row is idempotent: the second call
/// finds the same sample rate and argument, recomputes the same coupling
/// coefficient, and leaves the oscillator exactly where the first call left
/// it.
pub proof fn lemma_set_frequency_idempotent(
    a: MagicCircleOscillator,
    b: MagicCircleOscillator,
    c: MagicCircleOscillator,
    hz: int,
)
    requires
        MagicCircleOscillator::set_frequency_rel(a, b, hz),
        MagicCircleOscillator::set_frequency_rel(b, c, hz),
    ensures
        c == b,
{
}


/// The square of a three-term difference, written out.
proof fn lemma_square_of_difference(u: int, v: int, w: int)
    ensures
        (u - v - w) * (u - v - w) == u * u + v * v + w * w - 2 * (u * v) - 2 * (u * w) + 2 * (v
            * w),
{
    assert((u - v - w) * (u - v - w) == u * u + v * v + w * w - 2 * (u * v) - 2 * (u * w) + 2 * (
    v * w)) by (nonlinear_arith);
}

/// The product of a two-term sum and a three-term difference, written out.
proof fn lemma_product_expansion(p: int, q: int, u: int, v: int, w: int)
    ensures
        (p + q) * (u - v - w) == p * u - p * v - p * w + q * u - q * v - q * w,
{
    assert((p + q) * (u - v - w) == p * u - p * v - p * w + q * u - q * v - q * w)
        by (nonlinear_arith);
}

/// In exact arithmetic one update conserves the quadratic form
/// x1^2 + x2^2 + eps * x1 * x2 — the discrete rotation invariant that keeps
/// the recurrence on a closed orbit, so its amplitude cannot drift
/// systematically; the fixed-point core only adds truncation on top of this
/// exact rotation.
#[verifier::spinoff_prover]
pub proof fn lemma_rotation_invariant(x1: int, x2: int, e: int)
    ensures
        ({
            let x1n = x1 + e * x2;
            let x2n = x2 - e * x1n;
            x1n * x1n + x2n * x2n + e * x1n * x2n == x1 * x1 + x2 * x2 + e * x1 * x2
        }),
{
    let x1n = x1 + e * x2;
    let x2n = x2 - e * x1n;
    let a = x1 * x1;
    let b = x2 * x2;
    let c = x1 * x2;
    let e2 = e * e;
    let v1 = e * x1;
    let v2 = e2 * x2;
    assert(x2n == x2 - v1 - v2) by (nonlinear_arith)
        requires
            x2n == x2 - e * (x1 + e * x2),
            e2 == e * e,
            v1 == e * x1,
            v2 == e2 * x2,
    ;
    // The first component squared: (x1 + e*x2)^2.
    lemma_square_of_difference(x1, -(e * x2), 0);
    assert(x1n * x1n == a + 2 * (e * c) + e2 * b) by (nonlinear_arith)
        requires
            x1n == x1 + e * x2,
            a == x1 * x1,
            b == x2 * x2,
            c == x1 * x2,
            e2 == e * e,
    ;
    // The second component squared, monomial by monomial.
    lemma_square_of_difference(x2, v1, v2);
    assert(v1 * v1 == e2 * a && v2 * v2 == (e2 * e2) * b && x2 * v1 == e * c && x2 * v2 == e2
        * b && v1 * v2 == e2 * (e * c)) by (nonlinear_arith)
        requires
            v1 == e * x1,
            v2 == e2 * x2,
            e2 == e * e,
            a == x1 * x1,
            b == x2 * x2,
            c == x1 * x2,
    ;
    // The cross term, monomial by monomial.
    lemma_product_expansion(x1, e * x2, x2, v1, v2);
    assert(x1 * x2 == c && x1 * v1 == e * a && x1 * v2 == e2 * c && (e * x2) * x2 == e * b && (e
        * x2) * v1 == e2 * c && (e * x2) * v2 == e2 * (e * b)) by (nonlinear_arith)
        requires
            v1 == e * x1,
            v2 == e2 * x2,
            e2 == e * e,
            a == x1 * x1,
            b == x2 * x2,
            c == x1 * x2,
    ;
    let cross = c - e * a - e2 * c + e * b - e2 * c - e2 * (e * b);
    assert(x1n * x2n == cross);
    assert(e * cross == e * c - e2 * a - 2 * (e2 * (e * c)) + e2 * b - (e2 * e2) * b)
        by (nonlinear_arith)
        requires
            cross == c - e * a - e2 * c + e * b - e2 * c - e2 * (e * b),
            e2 == e * e,
            a == x1 * x1,
            b == x2 * x2,
            c == x1 * x2,
    ;
    assert(e * x1n * x2n == e * (x1n * x2n)) by (nonlinear_arith);
}

} // verus!
