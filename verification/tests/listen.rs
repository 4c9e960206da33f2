use music_visualizer::audio::MICRO;
use music_visualizer::listen::{analyze_window, convert_chunk, fake_frame, pcm_to_sample, Windower};

#[test]
fn pcm_conversion_exact() {
    assert_eq!(pcm_to_sample(0), 0);
    assert_eq!(pcm_to_sample(32767), 1_000_000);
    assert_eq!(pcm_to_sample(-32767), -1_000_000);
    // Only -32768 exceeds full scale; it clamps to -1.0.
    assert_eq!(pcm_to_sample(-32768), -1_000_000);
    // 16384 / 32767 = 0.500015...
    assert_eq!(pcm_to_sample(16384), 500_015);
    assert_eq!(pcm_to_sample(-16384), -500_015);
}

#[test]
fn chunk_conversion_keeps_order() {
    let chunk = convert_chunk(&vec![0i16, 32767, -32768, 16384]);
    assert_eq!(chunk, vec![0, 1_000_000, -1_000_000, 500_015]);
}

#[test]
fn two_windows_in_one_chunk() {
    // Exactly 2 * window_sample_size samples in one chunk: exactly two
    // windows, together carrying every sample once, in order.
    let ws = 64usize;
    let mut windower = Windower::new(ws);
    let chunk: Vec<i32> = (0..2 * ws as i32).collect();
    let windows = windower.feed(&chunk);
    assert_eq!(windows.len(), 2);
    let rejoined: Vec<i32> = windows.concat();
    assert_eq!(rejoined, chunk);
    assert_eq!(windower.buffer.len(), 0);
}

#[test]
fn remainder_is_kept_for_the_next_chunk() {
    let mut windower = Windower::new(100);
    let first: Vec<i32> = (0..130).collect();
    let windows = windower.feed(&first);
    assert_eq!(windows.len(), 1);
    assert_eq!(windows[0].len(), 100);
    assert_eq!(windower.buffer.len(), 30);

    // 70 more samples complete the second window.
    let second: Vec<i32> = (130..200).collect();
    let windows = windower.feed(&second);
    assert_eq!(windows.len(), 1);
    assert_eq!(windows[0], (100..200).collect::<Vec<i32>>());
    assert_eq!(windower.buffer.len(), 0);
}

#[test]
fn short_chunks_emit_nothing() {
    let mut windower = Windower::new(1024);
    for _ in 0..3 {
        let windows = windower.feed(&vec![1i32; 100]);
        assert!(windows.is_empty());
    }
    assert_eq!(windower.buffer.len(), 300);
}

#[test]
fn analyze_window_small_case() {
    // A 4-sample window at 400 Hz: bins at 0 Hz and 100 Hz. The second
    // coefficient |0.4| / 4 = 0.1 lands in bucket 1 and in the low band.
    let coeffs = vec![
        (0i64, 0i64),
        (400_000, 0),
        (0, 0),
        (0, 0),
    ];
    let (frame, mean) = analyze_window(&coeffs, 400, MICRO);
    assert_eq!(frame.low_power, 100_000);
    assert_eq!(frame.mid_power, 0);
    assert_eq!(frame.high_power, 0);
    assert_eq!(frame.hundred_hz_buckets[1], 100_000);
    // Mean over the two labeled bins: (0 + 100_000) / 2.
    assert_eq!(mean, 50_000);
}

#[test]
fn fake_frames_stay_in_range() {
    for _ in 0..50 {
        let frame = fake_frame();
        assert_eq!(frame.bpm, 0);
        assert!(frame.low_power < MICRO);
        assert!(frame.mid_power < MICRO);
        assert!(frame.high_power < MICRO);
        assert_eq!(frame.hundred_hz_buckets.len(), 200);
        assert!(frame.hundred_hz_buckets.iter().all(|&b| b < MICRO));
    }
}
