//! The phase-distortion voice: a phase accumulator whose ramp is bent by the
//! warp map before it is read through the sine, with the pivot swept by a
//! slow magic-circle modulator.
//!
//! Every sample is half-amplitude by construction: the sine is bounded by
//! one unit and the output halves it, so the voice can never leave
//! [-1/2, 1/2] whatever state its modulator is in.

use vstd::prelude::*;

verus! {

use crate::fx::{FX_ONE, FX_HALF, div_trunc, div_nn, half_trunc};
use crate::fx::lemma_div_trunc_mag;
use crate::osc::MagicCircleOscillator;
use crate::warp::{warp_map, warp_map_spec};
use crate::tuning::{mtof, mtof_spec};
use crate::trig::{sin2pi, sin2pi_spec};
use vstd::arithmetic::div_mod::{lemma_div_is_ordered, lemma_div_multiples_vanish};
use vstd::math::abs;

/// 0.01 in fixed point: the floor of the warp amount, keeping the pivot off
/// the degenerate zero.
pub const WARP_BASE: i64 = 10737418;

/// The fixed-point note number the voice is pitched to at construction.
pub const PD_DEFAULT_NOTE: i64 = 48 * 0x4000_0000;

/// The modulator rate at construction: 0.4 Hz in fixed point.
pub const PD_LFO_HZ: i64 = 429496729;

/// A phase-distortion oscillator: normalized phase, fixed frequency, and
/// the slow modulator that sweeps the warp pivot.
pub struct PhaseDistortionOsc {
    /// The normalized phase, kept in [0, 1].
    pub phs: i64,
    /// The audio frequency in fixed-point hertz, fixed at construction.
    pub freq: i64,
    /// The sample rate.
    pub sr: u32,
    /// The warp-pivot modulator.
    pub lfo: MagicCircleOscillator,
}

impl PhaseDistortionOsc {
    /// Reachable states: a normalized phase, a frequency no faster than one
    /// cycle per sample, a sample rate that can carry the default pitch, and
    /// a well-formed modulator at the same rate.
    pub open spec fn wf(self) -> bool {
        &&& 0 <= self.phs <= FX_ONE
        &&& 0 <= self.freq <= (self.sr as int) * (FX_ONE as int)
        &&& 131 <= self.sr
        &&& self.lfo.wf()
        &&& self.lfo.sr == self.sr
    }

    /// The warp amount derived from a modulator sample: 0.01 plus half of
    /// its unipolar form (1 + x2) / 2.
    pub open spec fn warp_amount_spec(x2: int) -> int {
        WARP_BASE as int + div_trunc(div_trunc(FX_ONE as int + x2, 2), 2)
    }

    /// The warped phase for a warp amount: the amount is mapped to the
    /// pivot (warp + 1) / 2 and the phase bent around it.
    pub open spec fn phasewarp_spec(phs: int, warp: int) -> int {
        warp_map_spec(phs, div_trunc(warp + FX_ONE as int, 2))
    }

    /// The sample one tick emits from state `s`: the sine of the warped
    /// phase, halved; the warp pivot comes from the freshly advanced
    /// modulator.
    pub open spec fn sample_spec(s: Self) -> int {
        div_trunc(
            sin2pi_spec(
                Self::phasewarp_spec(
                    s.phs as int,
                    Self::warp_amount_spec(MagicCircleOscillator::step_x2_spec(s.lfo)),
                ),
            ),
            2,
        )
    }

    /// The phase after one tick: advanced by freq / sr and wrapped back into
    /// the unit range, in either direction.
    pub open spec fn next_phase_spec(s: Self) -> int {
        let p = s.phs + (s.freq as int) / (s.sr as int);
        let p1 = if p > FX_ONE as int {
            p - FX_ONE as int
        } else {
            p
        };
        if p1 < 0 {
            p1 + FX_ONE as int
        } else {
            p1
        }
    }

    /// The whole oscillator after one tick.
    pub open spec fn stepped_spec(s: Self) -> Self {
        PhaseDistortionOsc {
            phs: Self::next_phase_spec(s) as i64,
            freq: s.freq,
            sr: s.sr,
            lfo: MagicCircleOscillator::stepped_spec(s.lfo),
        }
    }

    /// The oscillator after `k` ticks.
    pub open spec fn iterated_spec(s: Self, k: nat) -> Self
        decreases k,
    {
        if k == 0 {
            s
        } else {
            Self::stepped_spec(Self::iterated_spec(s, (k - 1) as nat))
        }
    }

    /// Creates the voice at its default pitch (note 48) with the modulator
    /// at 0.4 Hz and the state at a cosine-like start. The sample rate must
    /// be able to carry the default pitch at no more than one cycle per
    /// sample.
    pub fn new(sr: u32) -> (r: Self)
        requires
            131 <= sr,
        ensures
            r.phs == 0,
            r.freq == mtof_spec(PD_DEFAULT_NOTE as int),
            r.sr == sr,
            r.lfo.x1 == FX_ONE,
            r.lfo.x2 == 0,
            r.lfo.eps == MagicCircleOscillator::eps_spec(PD_LFO_HZ as int, sr as int),
            r.wf(),
    {
        let freq: i64 = mtof(PD_DEFAULT_NOTE);
        let mut lfo = MagicCircleOscillator::new(sr);
        lfo.set_frequency(PD_LFO_HZ);
        PhaseDistortionOsc { phs: 0, freq, sr, lfo }
    }

    /// Bends a normalized phase around the pivot that the warp amount sets:
    /// below the pivot the output ramps toward one half, from it on toward
    /// one.
    pub fn phasewarp(&self, phs: i64, warp: i64) -> (r: i64)
        requires
            0 <= phs <= FX_ONE,
            -0x2_0000_0000 <= warp <= 0x2_0000_0000,
        ensures
            r == Self::phasewarp_spec(phs as int, warp as int),
            0 <= r <= FX_ONE,
    {
        let wmp: i64 = half_trunc(warp + FX_ONE);
        warp_map(phs, wmp)
    }

    /// Advances the voice one sample: steps the modulator, bends the phase
    /// around the pivot it sets, reads the sine there at half amplitude,
    /// then advances and wraps the phase.
    pub fn tick(&mut self) -> (out: i64)
        requires
            old(self).wf(),
        ensures
            *final(self) == Self::stepped_spec(*old(self)),
            out == Self::sample_spec(*old(self)),
            -FX_HALF <= out <= FX_HALF,
            final(self).wf(),
    {
        let x2: i64 = self.lfo.tick();
        let u: i64 = half_trunc(FX_ONE + x2);
        proof {
            lemma_div_trunc_mag(FX_ONE as int + x2 as int, 2);
            lemma_div_trunc_mag(u as int, 2);
        }
        let amt: i64 = WARP_BASE + half_trunc(u);
        let w: i64 = self.phasewarp(self.phs, amt);
        let s: i64 = sin2pi(w);
        proof {
            lemma_div_trunc_mag(s as int, 2);
        }
        let out: i64 = half_trunc(s);
        let inc: i64 = div_nn(self.freq, self.sr as i64);
        proof {
            lemma_div_is_ordered(
                self.freq as int,
                (self.sr as int) * (FX_ONE as int),
                self.sr as int,
            );
            lemma_div_multiples_vanish(FX_ONE as int, self.sr as int);
        }
        self.phs = self.phs + inc;
        if self.phs > FX_ONE {
            self.phs = self.phs - FX_ONE;
        }
        if self.phs < 0 {
            self.phs = self.phs + FX_ONE;
        }
        out
    }

    /// Fills the whole buffer with consecutive samples: slot `i` holds the
    /// sample of the `i`-th tick from the starting state.
    pub fn process(&mut self, outbuf: &mut Vec<i64>)
        requires
            old(self).wf(),
        ensures
            final(outbuf)@.len() == old(outbuf)@.len(),
            *final(self) == Self::iterated_spec(*old(self), old(outbuf)@.len()),
            forall|i: int|
                0 <= i < old(outbuf)@.len() ==> #[trigger] final(outbuf)@[i] == Self::sample_spec(
                    Self::iterated_spec(*old(self), i as nat),
                ),
            forall|i: int|
                0 <= i < old(outbuf)@.len() ==> -FX_HALF <= #[trigger] final(outbuf)@[i]
                    <= FX_HALF,
            final(self).wf(),
    {
        let n: usize = outbuf.len();
        let mut i: usize = 0;
        while i < n
            invariant
                i <= n,
                outbuf@.len() == n,
                old(self).wf(),
                self.wf(),
                *self == Self::iterated_spec(*old(self), i as nat),
                forall|j: int|
                    0 <= j < i ==> #[trigger] outbuf@[j] == Self::sample_spec(
                        Self::iterated_spec(*old(self), j as nat),
                    ),
                forall|j: int| 0 <= j < i ==> -FX_HALF <= #[trigger] outbuf@[j] <= FX_HALF,
            decreases n - i,
        {
            let v: i64 = self.tick();
            outbuf[i] = v;
            i += 1;
        }
    }
}

} // verus!
