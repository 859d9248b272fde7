//! Behavioral tests for the spectral decay tracker, exercising the peak-hold
//! rule on concrete values. Amplitudes and frequencies are fixed-point
//! integers in micro-units (1.0 == 1_000_000).

use spectral_decay::Bin;
use spectral_decay::tracker::{Tracker, DECAY_DEN, DECAY_NUM, GAIN_FACTOR};

fn micro(x: f64) -> u64 {
    (x * 1_000_000.0).round() as u64
}

fn bins(pairs: &[(u64, u64)]) -> Vec<Bin> {
    pairs
        .iter()
        .map(|&(frequency, amplitude)| Bin { frequency, amplitude })
        .collect()
}

#[test]
fn fresh_zero_update_returns_zero_amplitudes() {
    let mut t = Tracker::new(5);
    let input = bins(&[(10, 0), (20, 0), (30, 0), (40, 0), (50, 0)]);
    let out = t.update(&input);
    assert_eq!(out.len(), 5);
    for b in &out {
        assert_eq!(b.amplitude, 0);
    }
}

#[test]
fn amplitudes_nonnegative_after_update() {
    let mut t = Tracker::new(3);
    let out = t.update(&bins(&[(10, 7), (20, 0), (30, 123_456)]));
    for b in &out {
        assert!((b.amplitude as i128) >= 0);
    }
    let out2 = t.update(&bins(&[(10, 0), (20, 0), (30, 0)]));
    for b in &out2 {
        assert!((b.amplitude as i128) >= 0);
    }
}

#[test]
fn zero_input_decays_monotonically() {
    let mut t = Tracker::new(1);
    t.update(&bins(&[(440, 1000)]));
    let zeros = bins(&[(440, 0)]);
    let mut prev = 5_000_000u64;
    for _ in 0..10 {
        let out = t.update(&zeros);
        let cur = out[0].amplitude;
        assert_eq!(cur, prev * DECAY_NUM / DECAY_DEN);
        assert!(cur <= prev);
        prev = cur;
    }
}

#[test]
fn peak_hold_decays_exponentially() {
    let mut t = Tracker::new(1);
    let out1 = t.update(&bins(&[(440, 1000)]));
    assert_eq!(out1[0].amplitude, 1000 * GAIN_FACTOR);
    let zeros = bins(&[(440, 0)]);
    let out2 = t.update(&zeros);
    assert_eq!(out2[0].amplitude, 4_200_000);
    let out3 = t.update(&zeros);
    assert_eq!(out3[0].amplitude, 3_528_000);
    let out4 = t.update(&zeros);
    assert_eq!(out4[0].amplitude, 2_963_520);
}

#[test]
fn short_input_updates_only_prefix() {
    let mut t = Tracker::new(4);
    t.update(&bins(&[(10, 1), (20, 2), (30, 3), (40, 4)]));
    let before = t.update(&bins(&[(10, 0), (20, 0), (30, 0), (40, 0)]));
    let out = t.update(&bins(&[(11, 9), (21, 8)]));
    assert_eq!(out.len(), 4);
    assert_eq!(out[0], Bin { frequency: 11, amplitude: 9 * GAIN_FACTOR });
    assert_eq!(out[1], Bin { frequency: 21, amplitude: 8 * GAIN_FACTOR });
    assert_eq!(out[2], before[2]);
    assert_eq!(out[3], before[3]);
}

#[test]
fn input_longer_than_tracker_ignores_excess() {
    let mut t = Tracker::new(2);
    let out = t.update(&bins(&[(10, 1), (20, 2), (30, 3), (40, 4)]));
    assert_eq!(out.len(), 2);
    assert_eq!(out[0].amplitude, GAIN_FACTOR);
    assert_eq!(out[1].amplitude, 2 * GAIN_FACTOR);
}

#[test]
fn empty_input_leaves_state_unchanged() {
    let mut t = Tracker::new(3);
    let before = t.update(&bins(&[(10, 1), (20, 2), (30, 3)]));
    let out = t.update(&bins(&[]));
    assert_eq!(out, before);
}

#[test]
fn zero_length_tracker_stays_empty() {
    let mut t = Tracker::new(0);
    assert_eq!(t.len(), 0);
    let out = t.update(&bins(&[(10, 1)]));
    assert!(out.is_empty());
}

#[test]
fn frequency_passthrough() {
    let mut t = Tracker::new(3);
    t.update(&bins(&[(100, 5), (200, 6), (300, 7)]));
    let out = t.update(&bins(&[(111, 0), (222, 0), (333, 0)]));
    assert_eq!(out[0].frequency, 111);
    assert_eq!(out[1].frequency, 222);
    assert_eq!(out[2].frequency, 333);
}

#[test]
fn snapshot_is_independent_copy() {
    let mut t = Tracker::new(1);
    let first = t.update(&bins(&[(440, 100)]));
    let second = t.update(&bins(&[(440, 0)]));
    assert_eq!(first[0].amplitude, 100 * GAIN_FACTOR);
    assert_ne!(first[0].amplitude, second[0].amplitude);
}

#[test]
fn default_config_matches_constants() {
    let t = Tracker::new(4);
    assert_eq!(t.gain, GAIN_FACTOR);
    assert_eq!(t.decay_num, DECAY_NUM);
    assert_eq!(t.decay_den, DECAY_DEN);
    assert_eq!(t.len(), 4);
    assert_eq!(GAIN_FACTOR, 5000);
    assert_eq!(DECAY_NUM, 84);
    assert_eq!(DECAY_DEN, 100);
}

#[test]
fn custom_config_floor_division() {
    let mut t = Tracker::with_config(1, 2, 1, 2);
    let out1 = t.update(&bins(&[(1, 10)]));
    assert_eq!(out1[0].amplitude, 20);
    let zeros = bins(&[(1, 0)]);
    assert_eq!(t.update(&zeros)[0].amplitude, 10);
    assert_eq!(t.update(&zeros)[0].amplitude, 5);
    assert_eq!(t.update(&zeros)[0].amplitude, 2);
    assert_eq!(t.update(&zeros)[0].amplitude, 1);
    assert_eq!(t.update(&zeros)[0].amplitude, 0);
    assert_eq!(t.update(&zeros)[0].amplitude, 0);
}

#[test]
fn boosted_peak_beats_decayed_peak_only_when_larger() {
    let mut t = Tracker::new(1);
    t.update(&bins(&[(440, 1000)]));
    let small = t.update(&bins(&[(440, 1)]));
    assert_eq!(small[0].amplitude, 4_200_000);
    let large = t.update(&bins(&[(440, 1000)]));
    assert_eq!(large[0].amplitude, 5_000_000);
}

#[test]
fn concrete_scenario_two_calls() {
    let mut t = Tracker::new(3);
    let input1 = bins(&[
        (micro(100.0), micro(0.001)),
        (micro(200.0), micro(0.002)),
        (micro(300.0), micro(0.0)),
    ]);
    let out1 = t.update(&input1);
    assert_eq!(out1[0], Bin { frequency: micro(100.0), amplitude: micro(5.0) });
    assert_eq!(out1[1], Bin { frequency: micro(200.0), amplitude: micro(10.0) });
    assert_eq!(out1[2], Bin { frequency: micro(300.0), amplitude: micro(0.0) });
    let input2 = bins(&[
        (micro(100.0), micro(0.0)),
        (micro(200.0), micro(0.0)),
        (micro(300.0), micro(0.0)),
    ]);
    let out2 = t.update(&input2);
    assert_eq!(out2[0], Bin { frequency: micro(100.0), amplitude: micro(4.2) });
    assert_eq!(out2[1], Bin { frequency: micro(200.0), amplitude: micro(8.4) });
    assert_eq!(out2[2], Bin { frequency: micro(300.0), amplitude: micro(0.0) });
}
