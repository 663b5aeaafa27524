//! The six-voice polyrhythmic ensemble: a diatonic cluster of voices whose
//! modulators run at mutually non-integer-ratio rates, so their pulses
//! drift in and out of alignment over a very long cycle.
//!
//! The external sawtooths, filters and the shared reverberation unit stay
//! with the driver; per sample the ensemble hands out six cutoff commands,
//! takes the six filtered samples back, sums them dry, and blends in the
//! reverb return the driver fetched from the dry sum.

use vstd::prelude::*;

verus! {

use crate::fx::{FX_ONE, fx_mul, fx_mul_spec};
use crate::fx::{lemma_fx_mul_bound, lemma_mul_fits};
use crate::voice::{Voice, SAMPLE_CAP};
use crate::tuning::mtof_spec;
use crate::osc::MagicCircleOscillator;

/// 0.2 in fixed point: the reverb return's share in the output blend.
pub const REVERB_MIX: i64 = 214748364;

/// The number of voices in the ensemble.
pub const VOICE_COUNT: usize = 6;

/// One voice's static configuration: its note, its modulator rate, and —
/// for the voices that carry one — a phase offset.
pub struct VoiceTuning {
    /// The note number, in fixed point.
    pub note: i64,
    /// The modulator rate in fixed-point hertz.
    pub lfo_rate: i64,
    /// Whether this voice's tuning carries a phase offset at all.
    pub set_phase: bool,
    /// The phase offset stored into the voice when it carries one.
    pub phase_offset: i64,
}

/// The tuning table: a diatonic cluster around note 56 (the base, two
/// semitones over, four, seven, eleven and twelve) and modulator rates
/// 1/10, 1/9, 1/7, 1/6, 1/5 and 1/4 Hz; the first four voices also carry
/// phase offsets 0, 0.1, 0.2 and 0.3.
pub open spec fn tuning_spec(i: int) -> VoiceTuning {
    if i == 0 {
        (VoiceTuning { note: 73014444032, lfo_rate: 107374182, set_phase: true, phase_offset: 0 })
    } else if i == 1 {
        (VoiceTuning {
            note: 71940702208,
            lfo_rate: 119304647,
            set_phase: true,
            phase_offset: 107374182,
        })
    } else if i == 2 {
        (VoiceTuning {
            note: 67645734912,
            lfo_rate: 153391689,
            set_phase: true,
            phase_offset: 214748364,
        })
    } else if i == 3 {
        (VoiceTuning {
            note: 60129542144,
            lfo_rate: 178956970,
            set_phase: true,
            phase_offset: 322122547,
        })
    } else if i == 4 {
        (VoiceTuning { note: 62277025792, lfo_rate: 214748364, set_phase: false, phase_offset: 0 })
    } else {
        (VoiceTuning { note: 64424509440, lfo_rate: 268435456, set_phase: false, phase_offset: 0 })
    }
}

/// The tuning of voice `i`.
pub fn tuning(i: usize) -> (t: VoiceTuning)
    requires
        i < VOICE_COUNT,
    ensures
        t == tuning_spec(i as int),
        0 <= t.note <= 128 * FX_ONE,
        0 < t.lfo_rate <= FX_ONE,
{
    if i == 0 {
        VoiceTuning { note: 73014444032, lfo_rate: 107374182, set_phase: true, phase_offset: 0 }
    } else if i == 1 {
        VoiceTuning {
            note: 71940702208,
            lfo_rate: 119304647,
            set_phase: true,
            phase_offset: 107374182,
        }
    } else if i == 2 {
        VoiceTuning {
            note: 67645734912,
            lfo_rate: 153391689,
            set_phase: true,
            phase_offset: 214748364,
        }
    } else if i == 3 {
        VoiceTuning {
            note: 60129542144,
            lfo_rate: 178956970,
            set_phase: true,
            phase_offset: 322122547,
        }
    } else if i == 4 {
        VoiceTuning { note: 62277025792, lfo_rate: 214748364, set_phase: false, phase_offset: 0 }
    } else {
        VoiceTuning { note: 64424509440, lfo_rate: 268435456, set_phase: false, phase_offset: 0 }
    }
}

/// What `setup` makes of one voice: pitched and rated from its tuning
/// record, the phase offset stored where the record carries one, the
/// modulator state and cached value untouched.
pub open spec fn setup_voice_spec(pre: Voice, t: VoiceTuning) -> Voice {
    Voice {
        saw_freq: mtof_spec(t.note as int) as i64,
        lfo: (MagicCircleOscillator {
            eps: MagicCircleOscillator::eps_spec(t.lfo_rate as int, pre.lfo.sr as int) as i64,
            ..pre.lfo
        }),
        phs: if t.set_phase {
            t.phase_offset
        } else {
            pre.phs
        },
        lfoval: pre.lfoval,
    }
}

/// The dry sum of the first `n` voices' finished samples.
pub open spec fn dry_sum_spec(vs: Seq<Voice>, fs: Seq<i64>, n: int) -> int
    decreases n,
{
    if n <= 0 {
        0
    } else {
        dry_sum_spec(vs, fs, n - 1) + Voice::shape_spec(fs[n - 1] as int, vs[n - 1].lfoval as int)
    }
}

/// The six-voice ensemble.
pub struct IsoRhythms {
    /// The voices, always six of them.
    pub voices: Vec<Voice>,
}

impl IsoRhythms {
    /// Reachable states: six well-formed voices.
    pub open spec fn wf(self) -> bool {
        &&& self.voices@.len() == VOICE_COUNT
        &&& forall|i: int| 0 <= i < VOICE_COUNT ==> (#[trigger] self.voices@[i]).wf()
    }

    /// Creates six quiet voices at the sample rate.
    pub fn new(sr: u32) -> (r: Self)
        ensures
            r.wf(),
            forall|i: int|
                0 <= i < VOICE_COUNT ==> {
                    let v = #[trigger] r.voices@[i];
                    v.saw_freq == 0 && v.lfo.x1 == FX_ONE && v.lfo.x2 == 0 && v.lfo.eps == 0
                        && v.lfo.sr == sr && v.phs == 0 && v.lfoval == 0
                },
    {
        let mut voices: Vec<Voice> = Vec::new();
        let mut i: usize = 0;
        while i < VOICE_COUNT
            invariant
                i <= VOICE_COUNT,
                voices@.len() == i,
                forall|j: int|
                    0 <= j < i ==> {
                        let v = #[trigger] voices@[j];
                        v.saw_freq == 0 && v.lfo.x1 == FX_ONE && v.lfo.x2 == 0 && v.lfo.eps == 0
                            && v.lfo.sr == sr && v.phs == 0 && v.lfoval == 0 && v.wf()
                    },
            decreases VOICE_COUNT - i,
        {
            voices.push(Voice::new(sr));
            i += 1;
        }
        IsoRhythms { voices }
    }

    /// Applies the fixed tuning: every voice is initialized, then pitched
    /// and rated from the table, and the first four get their phase
    /// offsets. Voices whose table entry carries no offset keep the phase
    /// they had, so a repeated setup never disturbs them.
    pub fn setup(&mut self)
        requires
            old(self).wf(),
        ensures
            final(self).wf(),
            forall|i: int|
                0 <= i < VOICE_COUNT ==> #[trigger] final(self).voices@[i] == setup_voice_spec(
                    old(self).voices@[i],
                    tuning_spec(i),
                ),
    {
        let mut i: usize = 0;
        while i < VOICE_COUNT
            invariant
                i <= VOICE_COUNT,
                self.voices@.len() == VOICE_COUNT,
                forall|j: int| 0 <= j < VOICE_COUNT ==> (#[trigger] self.voices@[j]).wf(),
                forall|j: int|
                    i <= j < VOICE_COUNT ==> #[trigger] self.voices@[j] == old(self).voices@[j],
                forall|j: int|
                    0 <= j < i ==> #[trigger] self.voices@[j] == setup_voice_spec(
                        old(self).voices@[j],
                        tuning_spec(j),
                    ),
            decreases VOICE_COUNT - i,
        {
            let t = tuning(i);
            let mut v: Voice = self.voices[i];
            v.init();
            v.pitch(t.note);
            v.rate(t.lfo_rate);
            if t.set_phase {
                v.phase(t.phase_offset);
            }
            self.voices[i] = v;
            i += 1;
        }
    }

    /// The control half of a tick: advances all six modulators and returns
    /// the six cutoffs the external filters should be programmed to.
    pub fn begin_tick(&mut self) -> (cutoffs: Vec<i64>)
        requires
            old(self).wf(),
        ensures
            final(self).wf(),
            cutoffs@.len() == VOICE_COUNT,
            forall|i: int|
                0 <= i < VOICE_COUNT ==> #[trigger] final(self).voices@[i]
                    == Voice::control_step_spec(old(self).voices@[i]),
            forall|i: int|
                0 <= i < VOICE_COUNT ==> #[trigger] cutoffs@[i] == Voice::cutoff_spec(
                    old(self).voices@[i],
                ),
    {
        let mut cutoffs: Vec<i64> = Vec::new();
        let mut i: usize = 0;
        while i < VOICE_COUNT
            invariant
                i <= VOICE_COUNT,
                self.voices@.len() == VOICE_COUNT,
                cutoffs@.len() == i,
                forall|j: int| 0 <= j < VOICE_COUNT ==> (#[trigger] self.voices@[j]).wf(),
                forall|j: int|
                    i <= j < VOICE_COUNT ==> #[trigger] self.voices@[j] == old(self).voices@[j],
                forall|j: int|
                    0 <= j < i ==> #[trigger] self.voices@[j] == Voice::control_step_spec(
                        old(self).voices@[j],
                    ),
                forall|j: int|
                    0 <= j < i ==> #[trigger] cutoffs@[j] == Voice::cutoff_spec(
                        old(self).voices@[j],
                    ),
            decreases VOICE_COUNT - i,
        {
            let mut v: Voice = self.voices[i];
            let c = v.begin_tick();
            self.voices[i] = v;
            cutoffs.push(c);
            i += 1;
        }
        cutoffs
    }

    /// The finish half of a tick: takes the six filtered samples back and
    /// returns the dry sum of the shaped voices.
    pub fn finish_tick(&self, filtered: &Vec<i64>) -> (dry: i64)
        requires
            self.wf(),
            filtered@.len() == VOICE_COUNT,
            forall|i: int|
                0 <= i < VOICE_COUNT ==> -SAMPLE_CAP <= #[trigger] filtered@[i] <= SAMPLE_CAP,
        ensures
            dry == dry_sum_spec(self.voices@, filtered@, VOICE_COUNT as int),
            -0xc0_0000_0000 <= dry <= 0xc0_0000_0000,
    {
        let mut acc: i64 = 0;
        let mut i: usize = 0;
        while i < VOICE_COUNT
            invariant
                i <= VOICE_COUNT,
                self.wf(),
                filtered@.len() == VOICE_COUNT,
                forall|j: int|
                    0 <= j < VOICE_COUNT ==> -SAMPLE_CAP <= #[trigger] filtered@[j] <= SAMPLE_CAP,
                acc == dry_sum_spec(self.voices@, filtered@, i as int),
                -0x20_0000_0000 * (i as int) <= acc <= 0x20_0000_0000 * (i as int),
            decreases VOICE_COUNT - i,
        {
            let v = self.voices[i];
            let smp = filtered[i];
            let shaped = v.finish_tick(smp);
            acc = acc + shaped;
            i += 1;
        }
        acc
    }

    /// Blends the dry sum with the reverb return the driver fetched from
    /// it: dry + 0.2 * reverb, a plain additive mix.
    pub fn mix(dry: i64, reverb: i64) -> (out: i64)
        requires
            -0xc0_0000_0000 <= dry <= 0xc0_0000_0000,
            -SAMPLE_CAP <= reverb <= SAMPLE_CAP,
        ensures
            out == dry + fx_mul_spec(reverb as int, REVERB_MIX as int),
    {
        proof {
            lemma_mul_fits(reverb as int, REVERB_MIX as int, SAMPLE_CAP as int, REVERB_MIX as int);
            lemma_fx_mul_bound(reverb as int, REVERB_MIX as int, SAMPLE_CAP as int,
                REVERB_MIX as int);
        }
        dry + fx_mul(reverb, REVERB_MIX)
    }

    /// The six cached modulator values, as a parallel control-voltage bus.
    pub fn cvparams(&self) -> (cv: Vec<i64>)
        requires
            self.wf(),
        ensures
            cv@.len() == VOICE_COUNT,
            forall|i: int|
                0 <= i < VOICE_COUNT ==> #[trigger] cv@[i] == self.voices@[i].lfoval,
    {
        let mut cv: Vec<i64> = Vec::new();
        let mut i: usize = 0;
        while i < VOICE_COUNT
            invariant
                i <= VOICE_COUNT,
                self.wf(),
                cv@.len() == i,
                forall|j: int| 0 <= j < i ==> #[trigger] cv@[j] == self.voices@[j].lfoval,
            decreases VOICE_COUNT - i,
        {
            cv.push(self.voices[i].lfo_value());
            i += 1;
        }
        cv
    }

    /// The frequency voice `i`'s external sawtooth should be programmed to.
    pub fn voice_saw_frequency(&self, i: usize) -> (r: i64)
        requires
            self.wf(),
            i < VOICE_COUNT,
        ensures
            r == self.voices@[i as int].saw_freq,
    {
        self.voices[i].saw_frequency()
    }

    /// The stored (inert) phase offset of voice `i`.
    pub fn voice_phase_offset(&self, i: usize) -> (r: i64)
        requires
            self.wf(),
            i < VOICE_COUNT,
        ensures
            r == self.voices@[i as int].phs,
    {
        self.voices[i].phase_offset()
    }
}

} // verus!
