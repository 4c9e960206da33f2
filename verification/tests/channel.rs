use music_visualizer::audio::AudioFrame;
use music_visualizer::channel::FrameChannel;

fn frame_with_low(low: u64) -> AudioFrame {
    AudioFrame {
        bpm: 0,
        low_power: low,
        mid_power: 0,
        high_power: 0,
        hundred_hz_buckets: vec![0; 200],
    }
}

#[test]
fn latest_only_drops_the_oldest() {
    let mut ch = FrameChannel::new(true);
    ch.send(frame_with_low(1));
    ch.send(frame_with_low(2));
    ch.send(frame_with_low(3));
    assert_eq!(ch.len(), 1);
    let got = ch.recv().unwrap();
    assert_eq!(got.low_power, 3);
    assert!(ch.recv().is_none());
}

#[test]
fn unbounded_keeps_every_frame_in_order() {
    let mut ch = FrameChannel::new(false);
    for i in 0..10 {
        ch.send(frame_with_low(i));
    }
    assert_eq!(ch.len(), 10);
    for i in 0..10 {
        assert_eq!(ch.recv().unwrap().low_power, i);
    }
    assert!(ch.recv().is_none());
}

#[test]
fn empty_channel_yields_nothing() {
    let mut ch = FrameChannel::new(true);
    assert_eq!(ch.len(), 0);
    assert!(ch.recv().is_none());
}
