//! Gain controller: a slow automatic-gain-control loop. It keeps a bounded
//! FIFO history of per-window mean amplitudes and derives the scalar that
//! normalizes the next window's output energy toward a fixed target
//! average. It reacts over hundreds of windows, smoothing transient spikes;
//! silence (a zero average) holds the previous scalar instead of dividing
//! by zero.

use crate::audio::sat64;
use vstd::prelude::*;

verus! {

/// Capacity of the mean-amplitude history: older entries are evicted FIFO.
pub const GAIN_HISTORY_CAPACITY: usize = 400;

/// Target average amplitude, in micro-units (0.01).
pub const TARGET_AVERAGE_MICRO: u64 = 10_000;

/// The target average expressed against a micro-unit average: the derived
/// scalar is `GAIN_NUMERATOR / average`, itself in micro-units.
pub const GAIN_NUMERATOR: u64 = 10_000_000_000;

/// Sum of the first `k` amplitudes of a window.
pub open spec fn amp_sum_to(amps: Seq<u64>, k: int) -> int
    decreases k,
{
    if k <= 0 {
        0
    } else {
        amp_sum_to(amps, k - 1) + amps[k - 1] as int
    }
}

/// An amplitude sum is never negative.
pub proof fn lemma_amp_sum_nonneg(amps: Seq<u64>, k: int)
    ensures
        amp_sum_to(amps, k) >= 0,
    decreases k,
{
    if k > 0 {
        lemma_amp_sum_nonneg(amps, k - 1);
    }
}

/// With all-zero amplitudes the sum is zero.
pub proof fn lemma_zero_amps_zero_mean(amps: Seq<u64>, k: int)
    requires
        k <= amps.len(),
        forall|i: int| 0 <= i < amps.len() ==> amps[i] == 0,
    ensures
        amp_sum_to(amps, k) == 0,
    decreases k,
{
    if k > 0 {
        lemma_zero_amps_zero_mean(amps, k - 1);
    }
}

/// The mean of a sequence of amplitudes: the (saturating) sum divided by
/// the count, and zero for an empty sequence.
pub open spec fn spec_mean(amps: Seq<u64>) -> int {
    if amps.len() == 0 {
        0
    } else {
        sat64(amp_sum_to(amps, amps.len() as int)) / amps.len() as int
    }
}

/// Mean amplitude of one window's bins, in micro-units.
pub fn mean_amplitude(amps: &Vec<u64>) -> (r: u64)
    ensures
        r == spec_mean(amps@),
{
    let n = amps.len();
    if n == 0 {
        return 0;
    }
    let mut sum: u64 = 0;
    let mut i: usize = 0;
    while i < n
        invariant
            n == amps@.len(),
            i <= n,
            sum == sat64(amp_sum_to(amps@, i as int)),
        decreases n - i,
    {
        proof {
            lemma_amp_sum_nonneg(amps@, i as int);
        }
        sum = sum.saturating_add(amps[i]);
        i = i + 1;
    }
    sum / (n as u64)
}

/// Observing silence on top of an all-silent history leaves the mean at
/// zero, so by the contract of `observe` the scalar is held unchanged.
pub proof fn lemma_silence_holds_scalar(g: GainState, m: u64)
    requires
        g.wf(),
        m == 0,
        forall|i: int| 0 <= i < g.history@.len() ==> g.history@[i] == 0,
    ensures
        spec_mean(g.spec_history_after(m)) == 0,
{
    let h = g.spec_history_after(m);
    assert(forall|i: int| 0 <= i < h.len() ==> h[i] == 0);
    lemma_zero_amps_zero_mean(h, h.len() as int);
    if h.len() > 0 {
        vstd::arithmetic::div_mod::lemma_div_of0(h.len() as int);
    }
}

/// State of the gain controller: the bounded history of recent mean
/// amplitudes and the scalar currently applied to amplitudes.
pub struct GainState {
    pub history: Vec<u64>,
    pub amplitude_scalar: u64,
}

impl GainState {
    /// The history never outgrows its capacity.
    pub open spec fn wf(self) -> bool {
        self.history@.len() <= GAIN_HISTORY_CAPACITY
    }

    /// The history after recording one more observation: append, then evict
    /// the oldest entry if the capacity would be exceeded.
    pub open spec fn spec_history_after(self, m: u64) -> Seq<u64> {
        if self.history@.len() < GAIN_HISTORY_CAPACITY {
            self.history@.push(m)
        } else {
            self.history@.push(m).subrange(1, self.history@.len() as int + 1)
        }
    }

    /// A fresh controller holding the configured initial gain.
    pub fn new(initial_scalar: u64) -> (r: GainState)
        ensures
            r.wf(),
            r.history@.len() == 0,
            r.amplitude_scalar == initial_scalar,
    {
        GainState { history: Vec::new(), amplitude_scalar: initial_scalar }
    }

    /// Records one window's mean amplitude and derives the scalar for the
    /// next window: the history average is recomputed and the new scalar is
    /// `GAIN_NUMERATOR / average`; a zero average (silence) holds the
    /// previous scalar. Returns the scalar now in force.
    pub fn observe(&mut self, mean_amplitude: u64) -> (r: u64)
        requires
            old(self).wf(),
        ensures
            final(self).wf(),
            final(self).history@ == old(self).spec_history_after(mean_amplitude),
            final(self).history@.len() <= GAIN_HISTORY_CAPACITY,
            final(self).amplitude_scalar as int == if spec_mean(final(self).history@) == 0 {
                old(self).amplitude_scalar as int
            } else {
                GAIN_NUMERATOR as int / spec_mean(final(self).history@)
            },
            r == final(self).amplitude_scalar,
    {
        self.history.push(mean_amplitude);
        if self.history.len() > GAIN_HISTORY_CAPACITY {
            self.history.remove(0);
            proof {
                assert(self.history@ =~= old(self).spec_history_after(mean_amplitude));
            }
        }
        let n = self.history.len();
        let mut sum: u64 = 0;
        let mut i: usize = 0;
        while i < n
            invariant
                n == self.history@.len(),
                i <= n,
                sum == sat64(amp_sum_to(self.history@, i as int)),
            decreases n - i,
        {
            proof {
                lemma_amp_sum_nonneg(self.history@, i as int);
            }
            let h = self.history[i];
            sum = sum.saturating_add(h);
            i = i + 1;
        }
        let average = sum / (n as u64);
        if average != 0 {
            self.amplitude_scalar = GAIN_NUMERATOR / average;
        }
        self.amplitude_scalar
    }
}

} // verus!
