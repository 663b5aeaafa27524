use isorhythms::fx::{div_nn, fx_mul, half_trunc, saturate, FX_HALF, FX_ONE, FX_QUARTER, FX_RAIL};
use isorhythms::trig::sin2pi;
use isorhythms::tuning::mtof;

#[test]
fn fx_mul_scales_by_one_unit() {
    assert_eq!(fx_mul(FX_ONE, FX_ONE), FX_ONE);
    assert_eq!(fx_mul(FX_HALF, FX_HALF), FX_QUARTER);
    assert_eq!(fx_mul(-FX_HALF, FX_HALF), -FX_QUARTER);
    assert_eq!(fx_mul(3, 5), 0);
    assert_eq!(fx_mul(0, 123456789), 0);
}

#[test]
fn fx_mul_truncates_toward_zero() {
    assert_eq!(fx_mul(1, FX_ONE - 1), 0);
    assert_eq!(fx_mul(-1, FX_ONE - 1), 0);
    assert_eq!(fx_mul(-3, FX_HALF), -1);
}

#[test]
fn div_and_half_round_toward_zero() {
    assert_eq!(div_nn(7, 2), 3);
    assert_eq!(div_nn(0, 9), 0);
    assert_eq!(half_trunc(7), 3);
    assert_eq!(half_trunc(-7), -3);
}

#[test]
fn saturate_clamps_to_rail() {
    assert_eq!(saturate(FX_RAIL + 1), FX_RAIL);
    assert_eq!(saturate(-FX_RAIL - 12345), -FX_RAIL);
    assert_eq!(saturate(42), 42);
}

#[test]
fn sine_anchors_are_exact() {
    assert_eq!(sin2pi(0), 0);
    assert_eq!(sin2pi(FX_HALF), 0);
    assert_eq!(sin2pi(FX_ONE), 0);
    assert_eq!(sin2pi(FX_QUARTER), FX_ONE);
    assert_eq!(sin2pi(3 * FX_QUARTER), -FX_ONE);
}

#[test]
fn sine_is_bounded_and_close_to_the_real_sine() {
    let n: i64 = 997;
    for k in 0..=n {
        let x = (FX_ONE / n) * k;
        let y = sin2pi(x);
        assert!(-FX_ONE <= y && y <= FX_ONE);
        let yr = (2.0 * std::f64::consts::PI * (x as f64) / (FX_ONE as f64)).sin();
        let err = (y as f64 / FX_ONE as f64 - yr).abs();
        assert!(err < 1e-4, "x={} err={}", x, err);
    }
}

#[test]
fn concert_pitch_is_exact() {
    assert_eq!(mtof(69 * FX_ONE), 440 * FX_ONE);
}

#[test]
fn default_voice_note_value() {
    assert_eq!(mtof(48 * FX_ONE), 140459691350);
}

#[test]
fn pitches_track_equal_temperament() {
    for nn in [0i64, 21, 48, 56, 60, 63, 67, 68, 69, 81, 108, 127] {
        let f = mtof(nn * FX_ONE) as f64 / FX_ONE as f64;
        let fr = 440.0 * (2f64).powf((nn as f64 - 69.0) / 12.0);
        let rel = (f - fr).abs() / fr;
        assert!(rel < 2e-4, "nn={} f={} fr={} rel={}", nn, f, fr, rel);
    }
}

#[test]
fn pitch_is_monotone_over_the_keyboard() {
    let mut prev: i64 = 0;
    for nn in 0..=127i64 {
        let f = mtof(nn * FX_ONE);
        assert!(f > prev, "nn={}", nn);
        prev = f;
    }
}
