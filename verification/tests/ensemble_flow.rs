use isorhythms::ensemble::{IsoRhythms, REVERB_MIX, VOICE_COUNT};
use isorhythms::fx::{fx_mul, FX_HALF, FX_ONE};
use isorhythms::voice::{Voice, CUTOFF_BASE, SAMPLE_CAP, VOICE_GAIN};

#[test]
fn setup_stores_the_configured_phase_offsets() {
    let mut ens = IsoRhythms::new(48000);
    ens.setup();
    let expected: [i64; 6] = [0, 107374182, 214748364, 322122547, 0, 0];
    for i in 0..VOICE_COUNT {
        assert_eq!(ens.voice_phase_offset(i), expected[i], "voice {}", i);
    }
    // The offsets are configuration only: a second setup leaves them alone,
    // and the modulator state they never touched is still at its start.
    ens.setup();
    for i in 0..VOICE_COUNT {
        assert_eq!(ens.voice_phase_offset(i), expected[i], "voice {}", i);
        assert_eq!(ens.voices[i].lfo.x1, FX_ONE);
        assert_eq!(ens.voices[i].lfo.x2, 0);
    }
}

#[test]
fn setup_tunes_the_diatonic_cluster() {
    let mut ens = IsoRhythms::new(48000);
    ens.setup();
    let notes: [f64; 6] = [68.0, 67.0, 63.0, 56.0, 58.0, 60.0];
    for i in 0..VOICE_COUNT {
        let f = ens.voice_saw_frequency(i) as f64 / FX_ONE as f64;
        let fr = 440.0 * (2f64).powf((notes[i] - 69.0) / 12.0);
        assert!((f - fr).abs() / fr < 2e-4, "voice {} f={} fr={}", i, f, fr);
    }
    // The modulator rates quicken from a tenth of a hertz to a quarter.
    let mut prev: i64 = 0;
    for i in 0..VOICE_COUNT {
        let eps = ens.voices[i].lfo.eps;
        assert!(eps > prev, "voice {}", i);
        prev = eps;
    }
}

#[test]
fn control_step_commands_the_documented_cutoff() {
    let mut ens = IsoRhythms::new(48000);
    ens.setup();
    let eps: Vec<i64> = (0..VOICE_COUNT).map(|i| ens.voices[i].lfo.eps).collect();
    let cutoffs = ens.begin_tick();
    let cv = ens.cvparams();
    assert_eq!(cutoffs.len(), VOICE_COUNT);
    assert_eq!(cv.len(), VOICE_COUNT);
    for i in 0..VOICE_COUNT {
        // One step from (1, 0) lands the sine component on -eps, so the
        // cached unipolar value is (1 - eps) / 2.
        assert_eq!(cv[i], (FX_ONE - eps[i]) / 2, "voice {}", i);
        assert_eq!(cutoffs[i], CUTOFF_BASE + 400 * cv[i], "voice {}", i);
    }
}

#[test]
fn finish_step_shapes_and_sums_the_voices() {
    let mut ens = IsoRhythms::new(48000);
    ens.setup();
    ens.begin_tick();
    let filtered: Vec<i64> = vec![FX_ONE; 6];
    let dry = ens.finish_tick(&filtered);
    let mut expect: i64 = 0;
    for i in 0..VOICE_COUNT {
        expect += fx_mul(fx_mul(FX_ONE, VOICE_GAIN), ens.voices[i].lfoval);
    }
    assert_eq!(dry, expect);
    assert!(dry > 0);
}

#[test]
fn mix_blends_a_fifth_of_the_reverb_return() {
    assert_eq!(IsoRhythms::mix(1000, FX_ONE), 1000 + REVERB_MIX);
    assert_eq!(IsoRhythms::mix(0, 0), 0);
    assert_eq!(IsoRhythms::mix(-500, -FX_HALF), -500 - REVERB_MIX / 2);
}

#[test]
fn louder_modulator_means_louder_voice() {
    // One voice with a stopped modulator keeps the unipolar value at one
    // half; one with a running modulator dips below it on the first step.
    let mut quiet = Voice::new(48000);
    quiet.rate(FX_ONE);
    let mut loud = Voice::new(48000);
    loud.rate(0);
    quiet.begin_tick();
    loud.begin_tick();
    assert!(quiet.lfo_value() < loud.lfo_value());
    let smp = SAMPLE_CAP / 2;
    assert!(quiet.finish_tick(smp) <= loud.finish_tick(smp));
    assert!(quiet.finish_tick(-smp).abs() <= loud.finish_tick(-smp).abs());
    // The stopped modulator shapes by exactly 0.3 * 0.5.
    assert_eq!(loud.finish_tick(FX_ONE), fx_mul(VOICE_GAIN, FX_HALF));
}

#[test]
fn voice_phase_setter_is_inert_configuration() {
    let mut v = Voice::new(48000);
    v.rate(FX_ONE / 4);
    let mut w = Voice::new(48000);
    w.rate(FX_ONE / 4);
    w.phase(FX_HALF);
    for _ in 0..1000 {
        v.begin_tick();
        w.begin_tick();
        assert_eq!(v.lfo_value(), w.lfo_value());
    }
    assert_eq!(w.phase_offset(), FX_HALF);
}
