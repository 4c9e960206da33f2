use music_visualizer::audio::MICRO;
use music_visualizer::bands::aggregate;

#[test]
fn bins_land_in_their_bands() {
    // 500 Hz -> low, 2 kHz -> mid, 10 kHz -> high, 25 kHz -> dropped.
    let freqs = vec![500_000u64, 2_000_000, 10_000_000, 25_000_000];
    let amps = vec![10_000u64, 20_000, 30_000, 40_000];
    let frame = aggregate(&freqs, &amps);
    assert_eq!(frame.low_power, 10_000);
    assert_eq!(frame.mid_power, 20_000);
    assert_eq!(frame.high_power, 30_000);
    assert_eq!(frame.bpm, 0);
}

#[test]
fn band_edges_are_inclusive_above() {
    // Exactly 1 kHz is still low; just above is mid.
    let freqs = vec![1_000_000u64, 1_000_001];
    let amps = vec![7u64, 9];
    let frame = aggregate(&freqs, &amps);
    assert_eq!(frame.low_power, 7);
    assert_eq!(frame.mid_power, 9);
}

#[test]
fn band_powers_are_clamped_to_one() {
    // Adversarially large amplitudes: each band sum is cut at 1.0.
    let freqs = vec![500_000u64, 600_000, 2_000_000, 10_000_000];
    let amps = vec![u64::MAX, u64::MAX, u64::MAX, 123];
    let frame = aggregate(&freqs, &amps);
    assert_eq!(frame.low_power, MICRO);
    assert_eq!(frame.mid_power, MICRO);
    assert_eq!(frame.high_power, 123);
    assert!(frame.low_power <= MICRO && frame.mid_power <= MICRO && frame.high_power <= MICRO);
}

#[test]
fn buckets_accumulate_unclamped() {
    // Two bins in the 100..200 Hz bucket: the histogram is a raw sum and
    // may exceed 1.0.
    let freqs = vec![150_000u64, 199_999];
    let amps = vec![900_000u64, 900_000];
    let frame = aggregate(&freqs, &amps);
    assert_eq!(frame.hundred_hz_buckets.len(), 200);
    assert_eq!(frame.hundred_hz_buckets[1], 1_800_000);
    assert_eq!(frame.hundred_hz_buckets[0], 0);
}

#[test]
fn bins_beyond_twenty_khz_skip_the_histogram() {
    // 20 kHz itself and anything above would index bucket 200 and past it:
    // they are skipped rather than written out of bounds.
    let freqs = vec![20_000_000u64, 25_000_000, 19_999_999];
    let amps = vec![11u64, 13, 17];
    let frame = aggregate(&freqs, &amps);
    assert_eq!(frame.hundred_hz_buckets[199], 17);
    let total: u64 = frame.hundred_hz_buckets.iter().sum();
    assert_eq!(total, 17);
}

#[test]
fn silent_bins_give_silent_frame() {
    let freqs: Vec<u64> = (0..512).map(|i| i as u64 * 21533).collect();
    let amps = vec![0u64; 512];
    let frame = aggregate(&freqs, &amps);
    assert_eq!(frame.low_power, 0);
    assert_eq!(frame.mid_power, 0);
    assert_eq!(frame.high_power, 0);
    assert!(frame.hundred_hz_buckets.iter().all(|&b| b == 0));
}
