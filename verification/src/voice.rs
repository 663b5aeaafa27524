//! One ensemble voice: an external band-limited sawtooth filtered by an
//! external resonant low-pass, both ruled by one slow magic-circle
//! modulator that drives brightness and loudness in lockstep.
//!
//! The sawtooth and the filter live outside the core; a tick is therefore
//! split in two. The control step advances the modulator and hands the
//! driver the cutoff to program; the finish step takes the filtered sample
//! back and scales it by the cached modulator value.

use vstd::prelude::*;

verus! {

use crate::fx::{FX_ONE, FX_RAIL, div_trunc, half_trunc, fx_mul, fx_mul_spec};
use crate::fx::{lemma_fx_mul_bound, lemma_mul_fits, lemma_div_trunc_mag};
use crate::osc::MagicCircleOscillator;
use crate::tuning::{mtof, mtof_spec};
use vstd::math::abs;

/// 0.3 in fixed point: the output gain of a voice.
pub const VOICE_GAIN: i64 = 322122547;

/// 0.3 Hz in fixed point: the modulator rate a bare voice starts at.
pub const VOICE_DEFAULT_RATE: i64 = 322122547;

/// Middle C in fixed point: the note a bare voice starts at.
pub const VOICE_DEFAULT_NOTE: i64 = 60 * 0x4000_0000;

/// 100 Hz in fixed point: the floor of the filter cutoff.
pub const CUTOFF_BASE: i64 = 100 * 0x4000_0000;

/// The largest magnitude of a filtered sample the voice accepts back; the
/// driver clamps what the external filter returns to this rail.
pub const SAMPLE_CAP: i64 = 0x4_0000_0000;

/// One ensemble voice: the modulator, what it last produced, and the
/// commands for the external sawtooth.
#[derive(Clone, Copy)]
pub struct Voice {
    /// The frequency the external sawtooth should be programmed to.
    pub saw_freq: i64,
    /// The brightness/loudness modulator.
    pub lfo: MagicCircleOscillator,
    /// The stored phase offset. It is configuration only: the tick
    /// recurrence deliberately never consumes it, so the rendered output
    /// does not depend on it. Folding it into the modulator state would
    /// change what every tick after it produces.
    pub phs: i64,
    /// The unipolar modulator value cached by the last control step; also
    /// exposed as the voice's control-voltage output.
    pub lfoval: i64,
}

impl Voice {
    /// Reachable states: a well-formed modulator and a cached value no
    /// larger than the rail.
    pub open spec fn wf(self) -> bool {
        &&& self.lfo.wf()
        &&& -FX_RAIL <= self.lfoval <= FX_RAIL
    }

    /// A modulator sample mapped to its unipolar form (1 + x) / 2.
    pub open spec fn unipolar_spec(x2: int) -> int {
        div_trunc(FX_ONE as int + x2, 2)
    }

    /// The voice after one control step: the modulator advances and the
    /// fresh sample's unipolar form is cached.
    pub open spec fn control_step_spec(v: Self) -> Self {
        Voice {
            saw_freq: v.saw_freq,
            lfo: MagicCircleOscillator::stepped_spec(v.lfo),
            phs: v.phs,
            lfoval: Self::unipolar_spec(MagicCircleOscillator::step_x2_spec(v.lfo)) as i64,
        }
    }

    /// The cutoff a control step commands: 100 + 400 * s hertz, for the
    /// unipolar modulator value s the same step caches.
    pub open spec fn cutoff_spec(v: Self) -> int {
        CUTOFF_BASE as int + 400 * Self::unipolar_spec(MagicCircleOscillator::step_x2_spec(v.lfo))
    }

    /// What a finish step makes of a filtered sample: the sample scaled by
    /// the gain and then by the cached modulator value, so loudness follows
    /// brightness.
    pub open spec fn shape_spec(smp: int, s: int) -> int {
        fx_mul_spec(fx_mul_spec(smp, VOICE_GAIN as int), s)
    }

    /// Creates a quiet voice: modulator at zero frequency, nothing cached,
    /// no sawtooth frequency commanded yet.
    pub fn new(sr: u32) -> (r: Self)
        ensures
            r.saw_freq == 0,
            r.lfo.x1 == FX_ONE,
            r.lfo.x2 == 0,
            r.lfo.eps == 0,
            r.lfo.sr == sr,
            r.phs == 0,
            r.lfoval == 0,
            r.wf(),
    {
        Voice { saw_freq: 0, lfo: MagicCircleOscillator::new(sr), phs: 0, lfoval: 0 }
    }

    /// Commands the external sawtooth to the frequency of a note number.
    pub fn pitch(&mut self, nn: i64)
        requires
            0 <= nn <= 128 * FX_ONE,
        ensures
            final(self).saw_freq == mtof_spec(nn as int),
            0 < final(self).saw_freq <= 14500 * (FX_ONE as int),
            final(self).lfo == old(self).lfo,
            final(self).phs == old(self).phs,
            final(self).lfoval == old(self).lfoval,
    {
        self.saw_freq = mtof(nn);
    }

    /// Sets the modulator frequency, recomputing its coupling coefficient.
    pub fn rate(&mut self, hz: i64)
        requires
            0 <= hz,
            old(self).lfo.sr != 0 ==> hz <= (old(self).lfo.sr as int) * (FX_ONE as int),
        ensures
            MagicCircleOscillator::set_frequency_rel(old(self).lfo, final(self).lfo, hz as int),
            final(self).saw_freq == old(self).saw_freq,
            final(self).phs == old(self).phs,
            final(self).lfoval == old(self).lfoval,
    {
        self.lfo.set_frequency(hz);
    }

    /// Stores a phase offset. The value is kept as configuration and read
    /// back by [`Voice::phase_offset`], but the tick recurrence never
    /// consumes it — deliberately inert, so storing an offset leaves the
    /// rendered output untouched.
    pub fn phase(&mut self, p: i64)
        ensures
            final(self).phs == p,
            final(self).saw_freq == old(self).saw_freq,
            final(self).lfo == old(self).lfo,
            final(self).lfoval == old(self).lfoval,
    {
        self.phs = p;
    }

    /// Puts the voice at its defaults: middle C and a 0.3 Hz modulator.
    pub fn init(&mut self)
        ensures
            final(self).saw_freq == mtof_spec(VOICE_DEFAULT_NOTE as int),
            MagicCircleOscillator::set_frequency_rel(
                old(self).lfo,
                final(self).lfo,
                VOICE_DEFAULT_RATE as int,
            ),
            final(self).phs == old(self).phs,
            final(self).lfoval == old(self).lfoval,
    {
        self.pitch(VOICE_DEFAULT_NOTE);
        self.rate(VOICE_DEFAULT_RATE);
    }

    /// The control half of a tick: advances the modulator, caches its
    /// unipolar value, and returns the cutoff the external filter should be
    /// programmed to before the sample is filtered.
    pub fn begin_tick(&mut self) -> (cutoff: i64)
        requires
            old(self).wf(),
        ensures
            *final(self) == Self::control_step_spec(*old(self)),
            cutoff == Self::cutoff_spec(*old(self)),
            final(self).wf(),
    {
        let x2: i64 = self.lfo.tick();
        proof {
            lemma_div_trunc_mag(FX_ONE as int + x2 as int, 2);
        }
        let s: i64 = half_trunc(FX_ONE + x2);
        self.lfoval = s;
        CUTOFF_BASE + 400 * s
    }

    /// The finish half of a tick: scales the filtered sample the driver
    /// hands back by the gain and the cached modulator value.
    pub fn finish_tick(&self, filtered: i64) -> (out: i64)
        requires
            self.wf(),
            -SAMPLE_CAP <= filtered <= SAMPLE_CAP,
        ensures
            out == Self::shape_spec(filtered as int, self.lfoval as int),
            -0x20_0000_0000 <= out <= 0x20_0000_0000,
    {
        proof {
            lemma_mul_fits(filtered as int, VOICE_GAIN as int, SAMPLE_CAP as int,
                VOICE_GAIN as int);
            lemma_fx_mul_bound(filtered as int, VOICE_GAIN as int, SAMPLE_CAP as int,
                VOICE_GAIN as int);
        }
        let g: i64 = fx_mul(filtered, VOICE_GAIN);
        proof {
            lemma_mul_fits(g as int, self.lfoval as int, 0x1_4000_0000, FX_RAIL as int);
            lemma_fx_mul_bound(g as int, self.lfoval as int, 0x1_4000_0000, FX_RAIL as int);
        }
        fx_mul(g, self.lfoval)
    }

    /// The cached modulator value: the voice's control-voltage output.
    pub fn lfo_value(&self) -> (r: i64)
        ensures
            r == self.lfoval,
    {
        self.lfoval
    }

    /// The stored (inert) phase offset.
    pub fn phase_offset(&self) -> (r: i64)
        ensures
            r == self.phs,
    {
        self.phs
    }

    /// The frequency the external sawtooth was last commanded to.
    pub fn saw_frequency(&self) -> (r: i64)
        ensures
            r == self.saw_freq,
    {
        self.saw_freq
    }
}

/// A voice's output amplitude scales monotonically with its cached
/// modulator value: for one filtered sample and two values 0 <= s1 <= s2,
/// the output under s2 is never smaller in magnitude than under s1 — and
/// for a nonnegative sample, never smaller outright.
pub proof fn lemma_voice_amp_monotone(smp: int, s1: int, s2: int)
    requires
        0 <= s1 <= s2,
    ensures
        abs(Voice::shape_spec(smp, s1)) <= abs(Voice::shape_spec(smp, s2)),
        0 <= smp ==> Voice::shape_spec(smp, s1) <= Voice::shape_spec(smp, s2),
{
    let g = fx_mul_spec(smp, VOICE_GAIN as int);
    assert(abs(g * s1) <= abs(g * s2) && (0 <= g ==> g * s1 <= g * s2)) by (nonlinear_arith)
        requires
            0 <= s1 <= s2,
    ;
    lemma_div_trunc_mag(g * s1, FX_ONE as int);
    lemma_div_trunc_mag(g * s2, FX_ONE as int);
    vstd::arithmetic::div_mod::lemma_div_is_ordered(
        abs(g * s1) as int,
        abs(g * s2) as int,
        FX_ONE as int,
    );
    if 0 <= smp {
        crate::fx::lemma_fx_mul_nonneg(smp, VOICE_GAIN as int);
        vstd::arithmetic::div_mod::lemma_div_is_ordered(g * s1, g * s2, FX_ONE as int);
        vstd::arithmetic::mul::lemma_mul_nonnegative(g, s1);
        vstd::arithmetic::mul::lemma_mul_nonnegative(g, s2);
    }
}

} // verus!
