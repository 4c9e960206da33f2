//! Visualizer state that reacts to audio frames. The GL drawing itself —
//! shader sources, vertex buffers, render-to-texture — lives in the
//! unverified rendering front end; this module keeps the verifiable
//! animation state each visualizer carries between frames.

use crate::audio::AudioFrame;
use crate::bands::clamped;
use vstd::prelude::*;

verus! {

/// One milliradian-scale animation phase step per frame (0.1 rad).
pub const PHASE_STEP_MILLI: u32 = 100;

/// The phase wraps at a full turn (6.28 rad, as the animation rounds it).
pub const PHASE_WRAP_MILLI: u32 = 6280;

/// A sub-visualizer: one animation driven by the stream of audio frames.
pub trait SubVisualizer {
    /// A fresh visualizer before setup.
    fn new() -> Self where Self: Sized;

    /// Records the shader program and framebuffer this visualizer draws
    /// with, once the rendering front end has compiled them.
    fn post_setup(&mut self, program_id: u32, framebuffer_id: u32);

    /// Consumes one audio frame and advances the animation state.
    fn update(&mut self, audio_frame: &AudioFrame);
}

/// Number of concentric squares the equalizer draws.
pub const NUM_SQUARES: usize = 7;

/// The equalizer: concentric squares lit by the hundred-hertz buckets,
/// pulsing on a wrapping phase. Square `i` encloses square `i + 1`; its
/// brightness follows one histogram bucket, clamped to full brightness.
pub struct EqualizerVisualizer {
    pub program_id: u32,
    pub framebuffer_id: u32,
    pub phase_milli: u32,
    pub square_amplitudes: Vec<u64>,
}

impl EqualizerVisualizer {
    /// The phase always stays below a full turn.
    pub open spec fn wf(self) -> bool {
        self.phase_milli < PHASE_WRAP_MILLI
    }
}

impl SubVisualizer for EqualizerVisualizer {
    fn new() -> (r: EqualizerVisualizer)
        ensures
            r.wf(),
            r.program_id == 0,
            r.framebuffer_id == 0,
            r.phase_milli == 0,
            r.square_amplitudes@.len() == 0,
    {
        EqualizerVisualizer {
            program_id: 0,
            framebuffer_id: 0,
            phase_milli: 0,
            square_amplitudes: Vec::new(),
        }
    }

    fn post_setup(&mut self, program_id: u32, framebuffer_id: u32)
        ensures
            final(self).program_id == program_id,
            final(self).framebuffer_id == framebuffer_id,
            final(self).phase_milli == old(self).phase_milli,
            final(self).square_amplitudes == old(self).square_amplitudes,
    {
        self.program_id = program_id;
        self.framebuffer_id = framebuffer_id;
    }

    /// Takes the square brightness values from the low histogram buckets —
    /// square `i` follows bucket `NUM_SQUARES - 1 - i`, clamped to full
    /// brightness — and advances the phase by one step, wrapping at a full
    /// turn.
    fn update(&mut self, audio_frame: &AudioFrame)
        ensures
            final(self).wf(),
            final(self).program_id == old(self).program_id,
            final(self).framebuffer_id == old(self).framebuffer_id,
            audio_frame.hundred_hz_buckets@.len() >= NUM_SQUARES ==> {
                &&& final(self).square_amplitudes@.len() == NUM_SQUARES
                &&& (forall|i: int|
                    0 <= i < NUM_SQUARES ==> final(self).square_amplitudes@[i] == clamped(
                        audio_frame.hundred_hz_buckets@[NUM_SQUARES - 1 - i] as int,
                    ))
            },
            audio_frame.hundred_hz_buckets@.len() < NUM_SQUARES
                ==> final(self).square_amplitudes@.len() == 0,
            final(self).phase_milli as int == (old(self).phase_milli as int
                % PHASE_WRAP_MILLI as int + PHASE_STEP_MILLI as int) % PHASE_WRAP_MILLI as int,
    {
        let mut square_amplitudes: Vec<u64> = Vec::new();
        if audio_frame.hundred_hz_buckets.len() >= NUM_SQUARES {
            let mut i: usize = 0;
            while i < NUM_SQUARES
                invariant
                    i <= NUM_SQUARES,
                    audio_frame.hundred_hz_buckets@.len() >= NUM_SQUARES,
                    square_amplitudes@.len() == i,
                    forall|j: int|
                        0 <= j < i ==> square_amplitudes@[j] == clamped(
                            audio_frame.hundred_hz_buckets@[NUM_SQUARES - 1 - j] as int,
                        ),
                decreases NUM_SQUARES - i,
            {
                let bucket = audio_frame.hundred_hz_buckets[NUM_SQUARES - 1 - i];
                let amplitude = if bucket > crate::audio::MICRO {
                    crate::audio::MICRO
                } else {
                    bucket
                };
                square_amplitudes.push(amplitude);
                i = i + 1;
            }
        }
        self.square_amplitudes = square_amplitudes;
        let base = self.phase_milli % PHASE_WRAP_MILLI;
        let next = base + PHASE_STEP_MILLI;
        self.phase_milli = if next >= PHASE_WRAP_MILLI {
            next - PHASE_WRAP_MILLI
        } else {
            next
        };
        proof {
            if next >= PHASE_WRAP_MILLI {
                vstd::arithmetic::div_mod::lemma_fundamental_div_mod_converse(
                    next as int,
                    PHASE_WRAP_MILLI as int,
                    1,
                    next - PHASE_WRAP_MILLI,
                );
            } else {
                vstd::arithmetic::div_mod::lemma_small_mod(
                    next as nat,
                    PHASE_WRAP_MILLI as nat,
                );
            }
        }
    }
}

} // verus!
