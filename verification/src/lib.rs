//! Core of an audio-reactive LED/GL music visualizer: the transformation of a
//! raw PCM sample stream into bounded, per-window feature frames.
//!
//! All quantities are fixed-point integers so that every step of the analysis
//! can be verified: sample values and amplitudes are expressed in millionths
//! (micro-units, `1_000_000` = 1.0), frequencies in milli-hertz, and times in
//! microseconds or milliseconds. The discrete Fourier transform itself runs in
//! an unverified front end; this crate consumes its complex coefficients,
//! scaled to micro-units, and derives amplitudes, band powers, gain control,
//! window scheduling and frame hand-off from them.

pub mod audio;
pub mod bands;
pub mod gain;
pub mod listen;
pub mod playback;
pub mod channel;
pub mod screen;
pub mod led_disk_emulator;
pub mod visualizer;
