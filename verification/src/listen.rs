//! Listener-side analysis: sample conversion, the sliding window over a
//! live capture stream, per-window analysis, and synthetic frames.
//!
//! A capture device delivers signed 16-bit PCM in chunks of arbitrary size.
//! Each raw sample is rescaled to micro-units and clamped to one full-scale
//! unit; the windower accumulates the converted samples and slices off one
//! fixed-size window after another, keeping the remainder. The windows are
//! transformed outside this crate; `analyze_window` turns the resulting
//! complex coefficients into one feature frame plus the window's mean
//! amplitude, which feeds the gain controller.

use crate::audio::{
    compute_spectrum, sat64, spec_amps, spec_freqs, AudioFrame, BUCKET_COUNT, MICRO,
};
use crate::bands::{
    aggregate, band_sum_to, bucket_sum_to, clamped, lemma_zero_amps_zero_band,
    lemma_zero_amps_zero_bucket, HIGH_MHZ, LOW_MHZ, MID_MHZ,
};
use crate::gain::{lemma_zero_amps_zero_mean, mean_amplitude, spec_mean};
use vstd::arithmetic::div_mod::{lemma_div_of0, lemma_fundamental_div_mod_converse};
use vstd::prelude::*;

verus! {

/// Largest positive value of a signed 16-bit PCM sample.
pub const PCM_MAX: i64 = 32767;

/// A full-scale sample in micro-units (1.0).
pub const SAMPLE_MAX_MICRO: i32 = 1_000_000;

/// A raw PCM sample rescaled to micro-units and clamped to `[-1.0, 1.0]`.
/// Only `-32768` exceeds full scale, and it clamps to `-1.0`.
pub open spec fn spec_sample_of_pcm(p: int) -> int {
    if p >= 0 {
        let v = p * MICRO as int / PCM_MAX as int;
        if v > SAMPLE_MAX_MICRO as int {
            SAMPLE_MAX_MICRO as int
        } else {
            v
        }
    } else {
        let v = (-p) * MICRO as int / PCM_MAX as int;
        if v > SAMPLE_MAX_MICRO as int {
            -(SAMPLE_MAX_MICRO as int)
        } else {
            -v
        }
    }
}

/// Converts one raw capture sample to a clamped micro-unit sample.
pub fn pcm_to_sample(pcm: i16) -> (r: i32)
    ensures
        r == spec_sample_of_pcm(pcm as int),
        -1_000_000 <= r <= 1_000_000,
{
    if pcm >= 0 {
        let v: i64 = (pcm as i64) * (MICRO as i64) / PCM_MAX;
        proof {
            assert(pcm as int * MICRO as int <= 32767 * 1_000_000) by (nonlinear_arith)
                requires
                    0 <= pcm <= 32767,
            ;
            assert(pcm as int * MICRO as int >= 0) by (nonlinear_arith)
                requires
                    pcm >= 0,
            ;
        }
        if v > SAMPLE_MAX_MICRO as i64 {
            SAMPLE_MAX_MICRO
        } else {
            v as i32
        }
    } else {
        let mag: i64 = -(pcm as i64);
        let v: i64 = mag * (MICRO as i64) / PCM_MAX;
        proof {
            assert(mag as int * MICRO as int <= 32768 * 1_000_000) by (nonlinear_arith)
                requires
                    0 < mag <= 32768,
            ;
            assert(mag as int * MICRO as int >= 0) by (nonlinear_arith)
                requires
                    mag >= 0,
            ;
        }
        if v > SAMPLE_MAX_MICRO as i64 {
            -SAMPLE_MAX_MICRO
        } else {
            -(v as i32)
        }
    }
}

/// Converts one chunk of raw capture samples, in order, to clamped
/// micro-unit samples ready for the windower.
pub fn convert_chunk(pcms: &Vec<i16>) -> (r: Vec<i32>)
    ensures
        r@.len() == pcms@.len(),
        forall|i: int|
            0 <= i < pcms@.len() ==> r@[i] == spec_sample_of_pcm(pcms@[i] as int),
{
    let mut r: Vec<i32> = Vec::new();
    let mut i: usize = 0;
    while i < pcms.len()
        invariant
            i <= pcms@.len(),
            r@.len() == i,
            forall|j: int| 0 <= j < i ==> r@[j] == spec_sample_of_pcm(pcms@[j] as int),
        decreases pcms@.len() - i,
    {
        let s = pcm_to_sample(pcms[i]);
        r.push(s);
        i = i + 1;
    }
    r
}

/// The sliding window over an incoming sample stream: an accumulation
/// buffer from which full windows are sliced off FIFO, without overlap.
pub struct Windower {
    pub window_size: usize,
    pub buffer: Vec<i32>,
}

impl Windower {
    /// A window always holds at least one sample.
    pub open spec fn wf(self) -> bool {
        self.window_size >= 1
    }

    /// A fresh windower with an empty accumulation buffer.
    pub fn new(window_size: usize) -> (r: Windower)
        requires
            window_size >= 1,
        ensures
            r.wf(),
            r.window_size == window_size,
            r.buffer@.len() == 0,
    {
        Windower { window_size, buffer: Vec::new() }
    }

    /// Appends one chunk of samples and drains every full window: the
    /// returned windows, in order, followed by the retained remainder, are
    /// exactly the previously buffered samples followed by the chunk — no
    /// sample is lost or duplicated, and the remainder is shorter than one
    /// window.
    pub fn feed(&mut self, chunk: &Vec<i32>) -> (windows: Vec<Vec<i32>>)
        requires
            old(self).wf(),
        ensures
            final(self).wf(),
            final(self).window_size == old(self).window_size,
            ({
                let all = old(self).buffer@ + chunk@;
                let ws = old(self).window_size as int;
                &&& windows@.len() == all.len() as int / ws
                &&& (forall|j: int|
                    0 <= j < windows@.len() ==> windows@[j]@ == all.subrange(j * ws, (j + 1)
                        * ws))
                &&& final(self).buffer@ == all.subrange(
                    windows@.len() as int * ws,
                    all.len() as int,
                )
                &&& final(self).buffer@.len() == all.len() as int % ws
                &&& final(self).buffer@.len() < ws
            }),
    {
        let ws = self.window_size;
        let ghost all = self.buffer@ + chunk@;
        let mut ci: usize = 0;
        while ci < chunk.len()
            invariant
                ci <= chunk@.len(),
                self.window_size == ws,
                self.buffer@ == all.subrange(0, all.len() - chunk@.len() + ci),
                all == old(self).buffer@ + chunk@,
            decreases chunk@.len() - ci,
        {
            let x = chunk[ci];
            self.buffer.push(x);
            proof {
                assert(self.buffer@ =~= all.subrange(0, all.len() - chunk@.len() + ci + 1));
            }
            ci = ci + 1;
        }
        proof {
            assert(self.buffer@ =~= all);
            assert(self.buffer@ =~= all.subrange(0, all.len() as int));
        }
        let mut windows: Vec<Vec<i32>> = Vec::new();
        proof {
            let k0 = windows@.len() as int;
            assert(k0 * ws == 0) by (nonlinear_arith)
                requires
                    k0 == 0,
            ;
        }
        while self.buffer.len() >= ws
            invariant
                ws == self.window_size >= 1,
                self.wf(),
                windows@.len() as int * ws + self.buffer@.len() as int == all.len(),
                self.buffer@ == all.subrange(windows@.len() as int * ws, all.len() as int),
                forall|j: int|
                    0 <= j < windows@.len() ==> windows@[j]@ == all.subrange(
                        j * ws,
                        (j + 1) * ws,
                    ),
            decreases self.buffer@.len(),
        {
            let ghost k = windows@.len() as int;
            let mut w: Vec<i32> = Vec::new();
            let mut i: usize = 0;
            while i < ws
                invariant
                    i <= ws <= self.buffer@.len(),
                    w@ == self.buffer@.subrange(0, i as int),
                decreases ws - i,
            {
                let x = self.buffer[i];
                w.push(x);
                proof {
                    assert(w@ =~= self.buffer@.subrange(0, i + 1));
                }
                i = i + 1;
            }
            let rest = self.buffer.split_off(ws);
            self.buffer = rest;
            windows.push(w);
            proof {
                assert((k + 1) * ws == k * ws + ws) by (nonlinear_arith);
                assert(self.buffer@ =~= all.subrange((k + 1) * ws, all.len() as int));
                assert(windows@[k]@ =~= all.subrange(k * ws, (k + 1) * ws));
            }
        }
        proof {
            let k = windows@.len() as int;
            lemma_fundamental_div_mod_converse(
                all.len() as int,
                ws as int,
                k,
                self.buffer@.len() as int,
            );
        }
        windows
    }
}

/// Feeding exactly two windows' worth of samples into an empty windower
/// yields exactly two windows which together carry every sample once, in
/// order, and leave nothing buffered.
pub proof fn lemma_windowing_exact(all: Seq<i32>, ws: int)
    requires
        ws >= 1,
        all.len() == 2 * ws,
    ensures
        all.len() as int / ws == 2,
        all.len() as int % ws == 0,
        all.subrange(0, ws) + all.subrange(ws, 2 * ws) == all,
{
    lemma_fundamental_div_mod_converse(all.len() as int, ws, 2, 0);
    assert(all.subrange(0, ws) + all.subrange(ws, 2 * ws) =~= all);
}

/// Analyzes one window: from its complex transform coefficients (in
/// micro-units) to the feature frame and the window's mean amplitude under
/// the given gain.
pub fn analyze_window(coeffs: &Vec<(i64, i64)>, sample_rate: u32, amplitude_scalar: u64) -> (r: (
    AudioFrame,
    u64,
))
    requires
        coeffs@.len() <= u32::MAX,
    ensures
        ({
            let n = coeffs@.len() as int;
            let freqs = spec_freqs(sample_rate as int, n);
            let amps = spec_amps(coeffs@, n, amplitude_scalar as int);
            &&& r.0.wf()
            &&& r.0.bpm == 0
            &&& r.0.low_power == clamped(band_sum_to(freqs, amps, -1, LOW_MHZ as int, n / 2))
            &&& r.0.mid_power == clamped(
                band_sum_to(freqs, amps, LOW_MHZ as int, MID_MHZ as int, n / 2),
            )
            &&& r.0.high_power == clamped(
                band_sum_to(freqs, amps, MID_MHZ as int, HIGH_MHZ as int, n / 2),
            )
            &&& r.0.hundred_hz_buckets@.len() == BUCKET_COUNT
            &&& (forall|k: int|
                0 <= k < BUCKET_COUNT ==> r.0.hundred_hz_buckets@[k] == sat64(
                    #[trigger] bucket_sum_to(freqs, amps, k, n / 2),
                ))
            &&& r.1 == spec_mean(amps)
        }),
{
    let (freqs, amps) = compute_spectrum(coeffs, sample_rate, amplitude_scalar);
    let frame = aggregate(&freqs, &amps);
    let mean = mean_amplitude(&amps);
    (frame, mean)
}

/// A window of pure silence — all transform coefficients zero — yields
/// all-zero amplitudes, all-zero band powers, an all-zero histogram and a
/// zero mean amplitude.
pub proof fn lemma_silent_window(coeffs: Seq<(i64, i64)>, rate: int, scalar: int)
    requires
        scalar >= 0,
        forall|i: int|
            0 <= i < coeffs.len() ==> (#[trigger] coeffs[i]).0 == 0 && coeffs[i].1 == 0,
    ensures
        ({
            let n = coeffs.len() as int;
            let freqs = spec_freqs(rate, n);
            let amps = spec_amps(coeffs, n, scalar);
            &&& (forall|i: int| 0 <= i < amps.len() ==> amps[i] == 0)
            &&& clamped(band_sum_to(freqs, amps, -1, LOW_MHZ as int, n / 2)) == 0
            &&& clamped(band_sum_to(freqs, amps, LOW_MHZ as int, MID_MHZ as int, n / 2)) == 0
            &&& clamped(band_sum_to(freqs, amps, MID_MHZ as int, HIGH_MHZ as int, n / 2)) == 0
            &&& (forall|k: int|
                0 <= k < BUCKET_COUNT ==> sat64(#[trigger] bucket_sum_to(freqs, amps, k, n / 2))
                    == 0)
            &&& spec_mean(amps) == 0
        }),
{
    let n = coeffs.len() as int;
    let freqs = spec_freqs(rate, n);
    let amps = spec_amps(coeffs, n, scalar);
    assert forall|i: int| 0 <= i < amps.len() implies amps[i] == 0 by {
        assert(coeffs[i].0 == 0 && coeffs[i].1 == 0);
        assert(crate::audio::sqrt_floor((0 * 0 + 0 * 0) as nat) == 0);
        assert(0 * scalar == 0) by (nonlinear_arith);
        assert(n * MICRO as int >= MICRO as int) by (nonlinear_arith)
            requires
                n >= 1,
        ;
        lemma_div_of0(n * MICRO as int);
    }
    lemma_zero_amps_zero_band(freqs, amps, -1, LOW_MHZ as int, n / 2);
    lemma_zero_amps_zero_band(freqs, amps, LOW_MHZ as int, MID_MHZ as int, n / 2);
    lemma_zero_amps_zero_band(freqs, amps, MID_MHZ as int, HIGH_MHZ as int, n / 2);
    assert forall|k: int| 0 <= k < BUCKET_COUNT implies sat64(
        #[trigger] bucket_sum_to(freqs, amps, k, n / 2),
    ) == 0 by {
        lemma_zero_amps_zero_bucket(freqs, amps, k, n / 2);
    }
    lemma_zero_amps_zero_mean(amps, amps.len() as int);
    if amps.len() > 0 {
        lemma_div_of0(amps.len() as int);
    }
}

/// Relies on `rand::random_range`: a uniform draw from `[0, MICRO)`, below
/// one full-scale unit by the documented range guarantee.
#[verifier::external_body]
fn random_micro() -> (r: u64)
    ensures
        r < 1_000_000,
{
    rand::random_range(0u64..1_000_000)
}

/// A synthetic frame of random band powers and bucket values, standing in
/// for real capture when no device is available. Whatever the draws, every
/// value stays below one full-scale unit.
pub fn fake_frame() -> (r: AudioFrame)
    ensures
        r.wf(),
        r.low_power < MICRO,
        r.mid_power < MICRO,
        r.high_power < MICRO,
        forall|k: int| 0 <= k < BUCKET_COUNT ==> r.hundred_hz_buckets@[k] < MICRO,
{
    let low_power = random_micro();
    let mid_power = random_micro();
    let high_power = random_micro();
    let mut hundred_hz_buckets: Vec<u64> = Vec::new();
    let mut i: usize = 0;
    while i < BUCKET_COUNT
        invariant
            i <= BUCKET_COUNT,
            hundred_hz_buckets@.len() == i,
            forall|k: int| 0 <= k < i ==> hundred_hz_buckets@[k] < MICRO,
        decreases BUCKET_COUNT - i,
    {
        hundred_hz_buckets.push(random_micro());
        i = i + 1;
    }
    AudioFrame { bpm: 0, low_power, mid_power, high_power, hundred_hz_buckets }
}

} // verus!
