use music_visualizer::audio::{compute_spectrum, frequency_bins, isqrt, to_amplitude, MICRO};

#[test]
fn frequency_bins_len_is_half_the_window() {
    for n in [1u32, 2, 3, 15, 16, 1024] {
        let bins = frequency_bins(22050, n);
        assert_eq!(bins.len(), (n / 2) as usize);
    }
}

#[test]
fn frequency_bins_exact_values() {
    let bins = frequency_bins(22050, 1024);
    // Bin i is at i * 22050 / 1024 Hz, carried in milli-hertz.
    assert_eq!(bins[0], 0);
    assert_eq!(bins[1], 21533); // 22050000 / 1024 = 21533.2...
    assert_eq!(bins[100], 2153320); // 2205000000 / 1024 = 2153320.3...
    assert_eq!(bins[511], 11003466); // 511 * 22050000 / 1024
}

#[test]
fn frequency_bins_strictly_increasing() {
    let bins = frequency_bins(24000, 1024);
    for w in bins.windows(2) {
        assert!(w[0] < w[1]);
    }
}

#[test]
fn isqrt_exact_values() {
    assert_eq!(isqrt(0), 0);
    assert_eq!(isqrt(1), 1);
    assert_eq!(isqrt(3), 1);
    assert_eq!(isqrt(4), 2);
    assert_eq!(isqrt(24), 4);
    assert_eq!(isqrt(25), 5);
    assert_eq!(isqrt(u64::MAX as u128 * u64::MAX as u128), u64::MAX);
}

#[test]
fn to_amplitude_exact_value() {
    // |3 + 4i| = 5: coefficient (3.0, 4.0) in micro-units over a window of
    // 2 samples under unit gain gives 5.0 / 2 = 2.5.
    let coeffs = vec![(3_000_000i64, 4_000_000i64)];
    let amps = to_amplitude(&coeffs, 2, MICRO);
    assert_eq!(amps, vec![2_500_000u64]);
}

#[test]
fn to_amplitude_applies_gain() {
    let coeffs = vec![(3_000_000i64, 4_000_000i64)];
    // Gain 2.0 doubles the amplitude.
    let amps = to_amplitude(&coeffs, 2, 2 * MICRO);
    assert_eq!(amps, vec![5_000_000u64]);
}

#[test]
fn to_amplitude_handles_negative_coefficients() {
    let amps = to_amplitude(&vec![(-3_000_000i64, -4_000_000i64)], 2, MICRO);
    assert_eq!(amps, vec![2_500_000u64]);
}

#[test]
fn amplitudes_are_never_negative() {
    // Unsigned output by construction; exercise extreme inputs anyway.
    let coeffs = vec![
        (i64::MIN, i64::MIN),
        (i64::MAX, i64::MIN),
        (0, 0),
        (-1, 1),
    ];
    let amps = to_amplitude(&coeffs, 1, u64::MAX);
    assert_eq!(amps.len(), coeffs.len());
}

#[test]
fn zero_window_amplitudes_are_zero() {
    let coeffs = vec![(0i64, 0i64); 8];
    let amps = to_amplitude(&coeffs, 8, 16 * MICRO);
    assert!(amps.iter().all(|&a| a == 0));
}

#[test]
fn compute_spectrum_pairs_labels_with_amplitudes() {
    let coeffs = vec![(1_000_000i64, 0i64); 16];
    let (freqs, amps) = compute_spectrum(&coeffs, 16000, MICRO);
    assert_eq!(freqs.len(), 8);
    assert_eq!(amps.len(), 8);
    // Bin 1 of a 16-sample window at 16 kHz is at 1 kHz.
    assert_eq!(freqs[1], 1_000_000);
    // |1.0| / 16 under unit gain.
    assert_eq!(amps[0], 62_500);
}

#[test]
fn compute_spectrum_of_empty_window_is_empty() {
    let (freqs, amps) = compute_spectrum(&Vec::new(), 44100, MICRO);
    assert!(freqs.is_empty());
    assert!(amps.is_empty());
}
