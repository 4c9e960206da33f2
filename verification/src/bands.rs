//! Band aggregator: reduces per-bin amplitudes into coarse perceptual bands
//! (low / mid / high) and a fine-grained histogram of hundred-hertz buckets.
//!
//! Thresholds are fixed and non-overlapping: the low band reaches up to
//! 1 kHz, the mid band up to 4 kHz, the high band up to 20 kHz; bins above
//! 20 kHz contribute to no band. Band sums are clamped to `[0, MICRO]` — a
//! hard ceiling, not a rescale. Bucket `k` accumulates the amplitude of all
//! bins whose frequency lies in `[100k, 100k + 100)` Hz; bins at or above
//! 20 kHz would index past the histogram and are skipped.

use crate::audio::{sat64, AudioFrame, BUCKET_COUNT, MICRO};
use vstd::prelude::*;

verus! {

/// Upper edge of the low band, in milli-hertz (1 kHz).
pub const LOW_MHZ: u64 = 1_000_000;

/// Upper edge of the mid band, in milli-hertz (4 kHz).
pub const MID_MHZ: u64 = 4_000_000;

/// Upper edge of the high band, in milli-hertz (20 kHz).
pub const HIGH_MHZ: u64 = 20_000_000;

/// Width of one histogram bucket, in milli-hertz (100 Hz).
pub const BUCKET_WIDTH_MHZ: u64 = 100_000;

/// Sum of the first `k` amplitudes whose frequency `f` satisfies
/// `lo < f <= hi`.
pub open spec fn band_sum_to(freqs: Seq<u64>, amps: Seq<u64>, lo: int, hi: int, k: int) -> int
    decreases k,
{
    if k <= 0 {
        0
    } else {
        band_sum_to(freqs, amps, lo, hi, k - 1) + if lo < freqs[k - 1] as int <= hi {
            amps[k - 1] as int
        } else {
            0
        }
    }
}

/// Sum of the first `k` amplitudes whose frequency falls in histogram
/// bucket `j`.
pub open spec fn bucket_sum_to(freqs: Seq<u64>, amps: Seq<u64>, j: int, k: int) -> int
    decreases k,
{
    if k <= 0 {
        0
    } else {
        bucket_sum_to(freqs, amps, j, k - 1) + if freqs[k - 1] as int / BUCKET_WIDTH_MHZ as int
            == j {
            amps[k - 1] as int
        } else {
            0
        }
    }
}

/// A band sum is never negative.
pub proof fn lemma_band_sum_nonneg(freqs: Seq<u64>, amps: Seq<u64>, lo: int, hi: int, k: int)
    ensures
        band_sum_to(freqs, amps, lo, hi, k) >= 0,
    decreases k,
{
    if k > 0 {
        lemma_band_sum_nonneg(freqs, amps, lo, hi, k - 1);
    }
}

/// A bucket sum is never negative.
pub proof fn lemma_bucket_sum_nonneg(freqs: Seq<u64>, amps: Seq<u64>, j: int, k: int)
    ensures
        bucket_sum_to(freqs, amps, j, k) >= 0,
    decreases k,
{
    if k > 0 {
        lemma_bucket_sum_nonneg(freqs, amps, j, k - 1);
    }
}

/// With all-zero amplitudes every band sum is zero.
pub proof fn lemma_zero_amps_zero_band(freqs: Seq<u64>, amps: Seq<u64>, lo: int, hi: int, k: int)
    requires
        k <= amps.len(),
        forall|i: int| 0 <= i < amps.len() ==> amps[i] == 0,
    ensures
        band_sum_to(freqs, amps, lo, hi, k) == 0,
    decreases k,
{
    if k > 0 {
        lemma_zero_amps_zero_band(freqs, amps, lo, hi, k - 1);
    }
}

/// With all-zero amplitudes every bucket sum is zero.
pub proof fn lemma_zero_amps_zero_bucket(freqs: Seq<u64>, amps: Seq<u64>, j: int, k: int)
    requires
        k <= amps.len(),
        forall|i: int| 0 <= i < amps.len() ==> amps[i] == 0,
    ensures
        bucket_sum_to(freqs, amps, j, k) == 0,
    decreases k,
{
    if k > 0 {
        lemma_zero_amps_zero_bucket(freqs, amps, j, k - 1);
    }
}

/// A band power: the band sum clamped to `[0, MICRO]`.
pub open spec fn clamped(s: int) -> int {
    if s > MICRO as int {
        MICRO as int
    } else {
        s
    }
}

/// The value a saturating accumulator holds after one more addition.
proof fn lemma_sat64_step(s: int, a: int)
    requires
        s >= 0,
        0 <= a <= u64::MAX,
    ensures
        sat64(s + a) == if sat64(s) + a > u64::MAX as int {
            u64::MAX as int
        } else {
            sat64(s) + a
        },
{
}

/// Aggregates per-bin amplitudes into one feature frame: three clamped band
/// powers and the unclamped (but saturating) hundred-hertz histogram. The
/// amplitude sequence may extend past the labeled bins; the extra entries
/// are ignored, as only `freqs.len()` bins carry a frequency.
pub fn aggregate(freqs: &Vec<u64>, amps: &Vec<u64>) -> (r: AudioFrame)
    requires
        freqs@.len() <= amps@.len(),
    ensures
        r.wf(),
        r.bpm == 0,
        r.low_power == clamped(
            band_sum_to(freqs@, amps@, -1, LOW_MHZ as int, freqs@.len() as int),
        ),
        r.mid_power == clamped(
            band_sum_to(freqs@, amps@, LOW_MHZ as int, MID_MHZ as int, freqs@.len() as int),
        ),
        r.high_power == clamped(
            band_sum_to(freqs@, amps@, MID_MHZ as int, HIGH_MHZ as int, freqs@.len() as int),
        ),
        r.hundred_hz_buckets@.len() == BUCKET_COUNT,
        forall|k: int|
            0 <= k < BUCKET_COUNT ==> r.hundred_hz_buckets@[k] == sat64(
                #[trigger] bucket_sum_to(freqs@, amps@, k, freqs@.len() as int),
            ),
{
    let n = freqs.len();
    let mut low: u64 = 0;
    let mut mid: u64 = 0;
    let mut high: u64 = 0;
    let mut i: usize = 0;
    while i < n
        invariant
            n == freqs@.len() <= amps@.len(),
            i <= n,
            low == sat64(band_sum_to(freqs@, amps@, -1, LOW_MHZ as int, i as int)),
            mid == sat64(band_sum_to(freqs@, amps@, LOW_MHZ as int, MID_MHZ as int, i as int)),
            high == sat64(band_sum_to(freqs@, amps@, MID_MHZ as int, HIGH_MHZ as int, i as int)),
        decreases n - i,
    {
        let f = freqs[i];
        let a = amps[i];
        proof {
            lemma_band_sum_nonneg(freqs@, amps@, -1, LOW_MHZ as int, i as int);
            lemma_band_sum_nonneg(freqs@, amps@, LOW_MHZ as int, MID_MHZ as int, i as int);
            lemma_band_sum_nonneg(freqs@, amps@, MID_MHZ as int, HIGH_MHZ as int, i as int);
            lemma_sat64_step(band_sum_to(freqs@, amps@, -1, LOW_MHZ as int, i as int), a as int);
            lemma_sat64_step(
                band_sum_to(freqs@, amps@, LOW_MHZ as int, MID_MHZ as int, i as int),
                a as int,
            );
            lemma_sat64_step(
                band_sum_to(freqs@, amps@, MID_MHZ as int, HIGH_MHZ as int, i as int),
                a as int,
            );
        }
        if f <= LOW_MHZ {
            low = low.saturating_add(a);
        } else if f <= MID_MHZ {
            mid = mid.saturating_add(a);
        } else if f <= HIGH_MHZ {
            high = high.saturating_add(a);
        }
        i = i + 1;
    }
    let low_power = if low > MICRO {
        MICRO
    } else {
        low
    };
    let mid_power = if mid > MICRO {
        MICRO
    } else {
        mid
    };
    let high_power = if high > MICRO {
        MICRO
    } else {
        high
    };

    let mut buckets: Vec<u64> = Vec::new();
    let mut k: usize = 0;
    while k < BUCKET_COUNT
        invariant
            k <= BUCKET_COUNT,
            buckets@.len() == k,
            forall|j: int| 0 <= j < k ==> buckets@[j] == 0,
        decreases BUCKET_COUNT - k,
    {
        buckets.push(0);
        k = k + 1;
    }
    let mut i: usize = 0;
    while i < n
        invariant
            n == freqs@.len() <= amps@.len(),
            i <= n,
            buckets@.len() == BUCKET_COUNT,
            forall|j: int|
                0 <= j < BUCKET_COUNT ==> buckets@[j] == sat64(
                    #[trigger] bucket_sum_to(freqs@, amps@, j, i as int),
                ),
        decreases n - i,
    {
        let f = freqs[i];
        let a = amps[i];
        let ghost prev = buckets@;
        let idx64: u64 = f / BUCKET_WIDTH_MHZ;
        if idx64 < BUCKET_COUNT as u64 {
            let idx = idx64 as usize;
            proof {
                lemma_bucket_sum_nonneg(freqs@, amps@, idx as int, i as int);
                lemma_sat64_step(bucket_sum_to(freqs@, amps@, idx as int, i as int), a as int);
            }
            let updated = buckets[idx].saturating_add(a);
            buckets.set(idx, updated);
        }
        proof {
            assert forall|j: int| 0 <= j < BUCKET_COUNT implies buckets@[j] == sat64(
                #[trigger] bucket_sum_to(freqs@, amps@, j, i + 1),
            ) by {
                assert(bucket_sum_to(freqs@, amps@, j, i + 1) == bucket_sum_to(
                    freqs@,
                    amps@,
                    j,
                    i as int,
                ) + if freqs@[i as int] as int / BUCKET_WIDTH_MHZ as int == j {
                    amps@[i as int] as int
                } else {
                    0
                });
                if f as int / BUCKET_WIDTH_MHZ as int == j {
                    assert(j == idx64 as int);
                    assert(buckets@[j] == sat64(bucket_sum_to(freqs@, amps@, j, i as int) + a));
                } else {
                    assert(buckets@[j] == prev[j]);
                }
            }
        }
        i = i + 1;
    }
    AudioFrame { bpm: 0, low_power, mid_power, high_power, hundred_hz_buckets: buckets }
}

} // verus!
