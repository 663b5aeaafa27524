//! End-to-end runs of the core against the real external collaborators: the
//! band-limited sawtooth, the resonant low-pass and the reverberation unit.

use boingboingboing as boing;
use isorhythms::ensemble::{IsoRhythms, VOICE_COUNT};
use isorhythms::fx::FX_ONE;
use isorhythms::voice::SAMPLE_CAP;

fn fx_to_f32(v: i64) -> f32 {
    v as f32 / FX_ONE as f32
}

fn f32_to_fx(x: f32) -> i64 {
    if !x.is_finite() {
        return 0;
    }
    let clamped = x.clamp(-16.0, 16.0);
    let v = (clamped as f64 * FX_ONE as f64) as i64;
    v.clamp(-SAMPLE_CAP, SAMPLE_CAP)
}

#[test]
fn one_second_of_ensemble_audio_is_finite_and_not_silent() {
    let sr: usize = 48000;
    let mut core = IsoRhythms::new(sr as u32);
    let mut saws: Vec<boing::blep::BLEP> = (0..VOICE_COUNT).map(|_| boing::blep(sr)).collect();
    let mut lpfs: Vec<boing::butterworth::ButterworthLowPass> =
        (0..VOICE_COUNT).map(|_| boing::butlp(sr)).collect();
    let mut verb = boing::bigverb(sr);

    core.setup();
    for i in 0..VOICE_COUNT {
        saws[i].set_freq(fx_to_f32(core.voice_saw_frequency(i)));
    }
    verb.init();

    let mut energy: f64 = 0.0;
    for _ in 0..sr {
        let cutoffs = core.begin_tick();
        let mut filtered: Vec<i64> = Vec::with_capacity(VOICE_COUNT);
        for i in 0..VOICE_COUNT {
            lpfs[i].set_freq(fx_to_f32(cutoffs[i]));
            let smp = saws[i].saw();
            filtered.push(f32_to_fx(lpfs[i].tick(smp)));
        }
        let dry = core.finish_tick(&filtered);
        let dry_f = fx_to_f32(dry);
        let (rvb, _) = verb.tick(dry_f, dry_f);
        let out = fx_to_f32(IsoRhythms::mix(dry, f32_to_fx(rvb)));
        assert!(out.is_finite());
        energy += (out as f64) * (out as f64);
    }
    let rms = (energy / sr as f64).sqrt();
    assert!(rms > 0.0, "rms={}", rms);
}

#[test]
fn control_voltages_stay_unipolar_over_a_run() {
    let sr: usize = 48000;
    let mut core = IsoRhythms::new(sr as u32);
    core.setup();
    for _ in 0..(sr / 10) {
        core.begin_tick();
        let cv = core.cvparams();
        assert_eq!(cv.len(), VOICE_COUNT);
        for v in cv {
            // The modulators stay near the unit circle, so the unipolar
            // control value never strays far from [0, 1].
            assert!(-FX_ONE / 100 <= v && v <= FX_ONE + FX_ONE / 100);
        }
    }
}
