use music_visualizer::audio::AudioFrame;
use music_visualizer::led_disk_emulator::get_pixel_ring_index;
use music_visualizer::screen::{
    create_screen, HardwareScreen, LedDiskEmulatorScreen, RawScreen, Screen,
};
use music_visualizer::visualizer::{EqualizerVisualizer, SubVisualizer};

#[test]
fn screens_declare_their_window_use() {
    assert!(RawScreen::new().uses_window());
    assert!(LedDiskEmulatorScreen::new().uses_window());
    assert!(!HardwareScreen {}.uses_window());
}

#[test]
fn screen_selection_by_name() {
    assert!(create_screen("raw".to_string()).uses_window());
    assert!(create_screen("emulator".to_string()).uses_window());
    // Any unknown name falls back to the emulator.
    assert!(create_screen("".to_string()).uses_window());
}

#[test]
fn ring_index_of_known_pixels() {
    // Center pixel, one per ring boundary, and the outer rim.
    assert_eq!(get_pixel_ring_index(254), 0);
    assert_eq!(get_pixel_ring_index(253), 1);
    assert_eq!(get_pixel_ring_index(248), 1);
    assert_eq!(get_pixel_ring_index(247), 2);
    assert_eq!(get_pixel_ring_index(236), 2);
    assert_eq!(get_pixel_ring_index(216), 3);
    assert_eq!(get_pixel_ring_index(192), 4);
    assert_eq!(get_pixel_ring_index(164), 5);
    assert_eq!(get_pixel_ring_index(132), 6);
    assert_eq!(get_pixel_ring_index(92), 7);
    assert_eq!(get_pixel_ring_index(48), 8);
    assert_eq!(get_pixel_ring_index(47), 9);
    assert_eq!(get_pixel_ring_index(0), 9);
    // The unused index past the last pixel maps to ring 0.
    assert_eq!(get_pixel_ring_index(255), 0);
}

#[test]
fn equalizer_follows_low_buckets() {
    let mut eq = EqualizerVisualizer::new();
    let mut buckets = vec![0u64; 200];
    // Square i follows bucket 6 - i, clamped to full brightness.
    buckets[6] = 250_000;
    buckets[5] = 3_000_000;
    buckets[0] = 42;
    let frame = AudioFrame {
        bpm: 0,
        low_power: 0,
        mid_power: 0,
        high_power: 0,
        hundred_hz_buckets: buckets,
    };
    let mut eq_frame = frame;
    eq.update(&eq_frame);
    assert_eq!(eq.square_amplitudes.len(), 7);
    assert_eq!(eq.square_amplitudes[0], 250_000);
    assert_eq!(eq.square_amplitudes[1], 1_000_000); // clamped
    assert_eq!(eq.square_amplitudes[6], 42);
    // A short histogram yields no squares rather than a bad index.
    eq_frame.hundred_hz_buckets = vec![1; 3];
    eq.update(&eq_frame);
    assert!(eq.square_amplitudes.is_empty());
}

#[test]
fn equalizer_phase_steps_and_wraps() {
    let mut eq = EqualizerVisualizer::new();
    eq.post_setup(7, 9);
    assert_eq!(eq.program_id, 7);
    assert_eq!(eq.framebuffer_id, 9);
    let frame = AudioFrame {
        bpm: 0,
        low_power: 0,
        mid_power: 0,
        high_power: 0,
        hundred_hz_buckets: vec![0; 200],
    };
    eq.update(&frame);
    assert_eq!(eq.phase_milli, 100);
    // 63 steps of 0.1 rad wrap past a full turn of 6.28 rad.
    for _ in 0..62 {
        eq.update(&frame);
    }
    assert_eq!(eq.phase_milli, 20);
}
