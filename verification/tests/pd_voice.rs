use isorhythms::fx::{FX_HALF, FX_ONE};
use isorhythms::pd::PhaseDistortionOsc;

#[test]
fn first_tick_from_the_default_state_is_zero() {
    // At phase zero the warped phase is zero, and the sine's zero there is
    // exact, so the very first sample is exactly silent.
    let mut osc = PhaseDistortionOsc::new(48000);
    let y = osc.tick();
    assert_eq!(y, 0);
    assert!(-FX_HALF < y && y < FX_HALF);
}

#[test]
fn output_is_half_amplitude_for_a_long_run() {
    let mut osc = PhaseDistortionOsc::new(48000);
    let mut nonzero = false;
    for _ in 0..480_000 {
        let y = osc.tick();
        assert!(-FX_HALF <= y && y <= FX_HALF);
        if y != 0 {
            nonzero = true;
        }
    }
    assert!(nonzero);
}

#[test]
fn process_fills_the_buffer_with_consecutive_ticks() {
    let mut a = PhaseDistortionOsc::new(44100);
    let mut b = PhaseDistortionOsc::new(44100);
    let mut buf: Vec<i64> = vec![0; 64];
    a.process(&mut buf);
    for i in 0..64 {
        assert_eq!(buf[i], b.tick(), "sample {}", i);
    }
    assert_eq!(a.phs, b.phs);
    assert_eq!(a.lfo.x1, b.lfo.x1);
    assert_eq!(a.lfo.x2, b.lfo.x2);
}

#[test]
fn phase_stays_normalized() {
    let mut osc = PhaseDistortionOsc::new(48000);
    for _ in 0..10_000 {
        osc.tick();
        assert!(0 <= osc.phs && osc.phs <= FX_ONE);
    }
}

#[test]
fn default_pitch_is_note_forty_eight() {
    let osc = PhaseDistortionOsc::new(48000);
    let f = osc.freq as f64 / FX_ONE as f64;
    assert!((f - 130.8128).abs() < 0.01, "f={}", f);
}

#[test]
fn phasewarp_maps_the_warp_amount_to_a_pivot() {
    let osc = PhaseDistortionOsc::new(48000);
    // A warp amount of 0 puts the pivot at one half.
    assert_eq!(osc.phasewarp(FX_ONE / 4, 0), FX_ONE / 4);
    // A warp amount of 1 puts the pivot at one: the second segment is
    // disabled and the top of the ramp maps to zero.
    assert_eq!(osc.phasewarp(FX_ONE, FX_ONE), 0);
    // A warp amount of -1 puts the pivot at zero: phases fall through to
    // the second segment.
    assert_eq!(osc.phasewarp(0, -FX_ONE), FX_HALF);
}
