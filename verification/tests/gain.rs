use music_visualizer::gain::{mean_amplitude, GainState, GAIN_HISTORY_CAPACITY};

#[test]
fn mean_amplitude_exact() {
    assert_eq!(mean_amplitude(&vec![10_000u64, 20_000, 30_000]), 20_000);
    assert_eq!(mean_amplitude(&vec![]), 0);
    assert_eq!(mean_amplitude(&vec![7u64]), 7);
}

#[test]
fn scalar_targets_the_average() {
    // One observation of 0.02 mean amplitude: the target average is 0.01,
    // so the derived gain is 0.5.
    let mut gain = GainState::new(16_000_000);
    let scalar = gain.observe(20_000);
    assert_eq!(scalar, 500_000);
    assert_eq!(gain.amplitude_scalar, 500_000);
}

#[test]
fn silence_holds_previous_scalar() {
    // A zero average must not divide by zero: the scalar is held.
    let mut gain = GainState::new(16_000_000);
    let scalar = gain.observe(0);
    assert_eq!(scalar, 16_000_000);
    let scalar = gain.observe(0);
    assert_eq!(scalar, 16_000_000);
}

#[test]
fn history_never_exceeds_capacity() {
    // 500 distinct observations against a capacity of 400.
    let mut gain = GainState::new(1_000_000);
    for i in 0..500u64 {
        gain.observe(i + 1);
        assert!(gain.history.len() <= GAIN_HISTORY_CAPACITY);
    }
    assert_eq!(gain.history.len(), GAIN_HISTORY_CAPACITY);
    // FIFO: the oldest observations were evicted.
    assert_eq!(gain.history[0], 101);
    assert_eq!(gain.history[GAIN_HISTORY_CAPACITY - 1], 500);
}

#[test]
fn average_spans_the_whole_history() {
    let mut gain = GainState::new(1_000_000);
    gain.observe(10_000);
    let scalar = gain.observe(30_000);
    // Average of 10_000 and 30_000 is 20_000; gain 0.01 / 0.02 = 0.5.
    assert_eq!(scalar, 500_000);
}
