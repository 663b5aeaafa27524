use isorhythms::fx::{FX_HALF, FX_ONE, FX_QUARTER};
use isorhythms::osc::MagicCircleOscillator;
use isorhythms::warp::warp_map;

#[test]
fn warp_is_continuous_at_the_phase_boundaries() {
    for wmp in [1i64, FX_QUARTER, FX_HALF, FX_HALF + FX_QUARTER, FX_ONE - 1] {
        assert_eq!(warp_map(0, wmp), 0);
        assert_eq!(warp_map(FX_ONE, wmp), FX_ONE);
    }
}

#[test]
fn warp_segments_meet_at_the_pivot() {
    for wmp in [0i64, 1, FX_QUARTER, FX_HALF, FX_ONE - 1] {
        assert_eq!(warp_map(wmp, wmp), FX_HALF);
    }
    // Just below the pivot the first segment has almost reached one half.
    assert_eq!(warp_map(FX_HALF - 1, FX_HALF), FX_HALF - 1);
}

#[test]
fn warp_first_segment_is_linear() {
    assert_eq!(warp_map(FX_QUARTER, FX_HALF), FX_QUARTER);
    assert_eq!(warp_map(FX_QUARTER / 2, FX_HALF), FX_QUARTER / 2);
}

#[test]
fn warp_degenerate_pivots_disable_one_segment_each() {
    // A pivot of one disables the second segment: phase at the top maps to 0.
    assert_eq!(warp_map(FX_ONE, FX_ONE), 0);
    // Below the top the first segment still applies.
    assert_eq!(warp_map(FX_HALF, FX_ONE), FX_QUARTER);
    // A pivot of zero disables only the first segment; a nonnegative phase
    // falls through to the second one.
    assert_eq!(warp_map(0, 0), FX_HALF);
    assert_eq!(warp_map(FX_ONE, 0), FX_ONE);
}

#[test]
fn warp_stays_in_the_unit_range_for_wild_pivots() {
    for wmp in [-(1i64 << 33), -FX_ONE, -1, 0, FX_ONE, FX_ONE + 1, 1i64 << 33] {
        for phs in [0i64, 1, FX_QUARTER, FX_HALF, FX_ONE - 1, FX_ONE] {
            let r = warp_map(phs, wmp);
            assert!(0 <= r && r <= FX_ONE, "phs={} wmp={} r={}", phs, wmp, r);
        }
    }
}

fn period_in_samples(freq_hz: i64, sr: u32, cycles: usize) -> i64 {
    let mut osc = MagicCircleOscillator::new(sr);
    osc.set_frequency(freq_hz * FX_ONE);
    let mut prev: i64 = 0;
    let mut first: i64 = -1;
    let mut count: usize = 0;
    for i in 0..4_000_000i64 {
        let y = osc.tick();
        if prev < 0 && y >= 0 {
            if first < 0 {
                first = i;
            } else {
                count += 1;
                if count == cycles {
                    return i - first;
                }
            }
        }
        prev = y;
    }
    panic!("oscillation never completed {} cycles", cycles);
}

#[test]
fn oscillator_period_matches_the_set_frequency() {
    // Ten cycles of 100 Hz at 48 kHz span 4800 samples.
    let d100 = period_in_samples(100, 48000, 10);
    assert!((d100 - 4800).abs() <= 10, "d100={}", d100);
    // Ten cycles of 440 Hz at 48 kHz span about 1091 samples.
    let d440 = period_in_samples(440, 48000, 10);
    assert!((d440 - 1091).abs() <= 10, "d440={}", d440);
}

#[test]
fn oscillator_amplitude_stays_put_over_a_long_run() {
    let mut osc = MagicCircleOscillator::new(48000);
    osc.set_frequency(100 * FX_ONE);
    let mut peak: i64 = 0;
    for _ in 0..480_000 {
        let y = osc.tick();
        if y.abs() > peak {
            peak = y.abs();
        }
    }
    // The peak stays within a tenth of a percent of unit amplitude.
    assert!((peak - FX_ONE).abs() < FX_ONE / 1000, "peak={}", peak);
}

#[test]
fn setting_the_same_frequency_twice_is_idempotent() {
    let mut osc = MagicCircleOscillator::new(48000);
    osc.set_frequency(100 * FX_ONE);
    let e1 = osc.eps;
    osc.set_frequency(100 * FX_ONE);
    let e2 = osc.eps;
    assert_eq!(e1, e2);
    assert_eq!(e1, 14055146);
}

#[test]
fn zero_sample_rate_disables_the_oscillator() {
    let mut osc = MagicCircleOscillator::new(0);
    osc.set_frequency(0);
    assert_eq!(osc.eps, 0);
    let y = osc.tick();
    assert_eq!(y, 0);
    assert_eq!(osc.x1, FX_ONE);
}
