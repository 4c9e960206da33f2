//! Window scheduler for file playback: the whole sample buffer and its
//! duration are known up front, and the scheduler walks it in non-overlapping
//! windows of a nominal 20 ms while the caller sleeps each window's wall-clock
//! duration away. When processing a window took longer than its nominal
//! duration, the next window is extended by the excess converted to samples —
//! a feed-forward drift correction that lets window boundaries catch up with
//! real time without ever rewinding.

use crate::audio::sat64;
use vstd::prelude::*;

verus! {

/// Nominal duration of one playback window, in microseconds (20 ms).
pub const NOMINAL_WINDOW_US: u64 = 20_000;

/// Number of nominal windows per second.
pub const WINDOWS_PER_SECOND: u64 = 50;

/// Drift correction: the excess processing time of the previous window,
/// converted to a sample count by rounding `delta_us * sps / 1_000_000` to
/// the nearest integer.
pub open spec fn spec_drift(delta_us: int, sps: int) -> int {
    (delta_us * sps + 500_000) / 1_000_000
}

/// Excess wall-clock time converted to samples, rounded to nearest;
/// saturates at the largest `u64` for inputs no real clock produces.
pub fn drift_samples(delta_us: u64, samples_per_second: u64) -> (r: u64)
    ensures
        r == sat64(spec_drift(delta_us as int, samples_per_second as int)),
{
    let d: u128 = delta_us as u128;
    let s: u128 = samples_per_second as u128;
    proof {
        assert((d as int) * (s as int) >= 0 && (d as int) * (s as int) + 500_000
            <= u128::MAX) by (nonlinear_arith)
            requires
                0 <= d <= u64::MAX,
                0 <= s <= u64::MAX,
        ;
    }
    let q: u128 = (d * s + 500_000) / 1_000_000;
    if q > u64::MAX as u128 {
        u64::MAX
    } else {
        q as u64
    }
}

/// The playback scheduler: the position of the next window inside the
/// decoded sample buffer, and the pending drift correction. Playback is
/// done once `window_start` has walked past the last sample.
pub struct FileScheduler {
    pub sample_count: usize,
    pub samples_per_second: u64,
    pub window_samples: usize,
    pub window_start: usize,
    pub extra_samples: u64,
}

impl FileScheduler {
    /// A window always holds at least one sample.
    pub open spec fn wf(self) -> bool {
        self.window_samples >= 1
    }

    /// Where the current window ends: a nominal window, extended by the
    /// pending drift correction and cut off at the end of the buffer.
    pub open spec fn spec_window_end(self) -> int {
        let want = self.window_start + self.window_samples + self.extra_samples;
        if want > self.sample_count {
            self.sample_count as int
        } else {
            want
        }
    }

    /// A scheduler at the start of a decoded buffer of `sample_count`
    /// samples spanning `duration_ms` milliseconds of audio. The sample
    /// rate is derived from the two; a 20 ms window then holds a fiftieth
    /// of a second of samples, and at least one.
    pub fn new(sample_count: usize, duration_ms: u64) -> (r: FileScheduler)
        requires
            duration_ms >= 1,
            sample_count * 1000 <= u64::MAX,
            sample_count * 1000 / duration_ms as int <= u32::MAX,
        ensures
            r.wf(),
            r.sample_count == sample_count,
            r.samples_per_second == sample_count * 1000 / duration_ms as int,
            r.window_samples as int == if r.samples_per_second as int / WINDOWS_PER_SECOND as int
                >= 1 {
                r.samples_per_second as int / WINDOWS_PER_SECOND as int
            } else {
                1
            },
            r.window_start == 0,
            r.extra_samples == 0,
    {
        let samples_per_second: u64 = (sample_count as u64) * 1000 / duration_ms;
        let nominal: u64 = samples_per_second / WINDOWS_PER_SECOND;
        let window_samples: usize = if nominal >= 1 {
            nominal as usize
        } else {
            1
        };
        FileScheduler {
            sample_count,
            samples_per_second,
            window_samples,
            window_start: 0,
            extra_samples: 0,
        }
    }

    /// The bounds of the current window as `[start, end)`, or `None` once
    /// the whole buffer has been walked.
    pub fn current_window(&self) -> (r: Option<(usize, usize)>)
        requires
            self.wf(),
        ensures
            r == if self.window_start >= self.sample_count {
                None::<(usize, usize)>
            } else {
                Some((self.window_start, self.spec_window_end() as usize))
            },
    {
        if self.window_start >= self.sample_count {
            return None;
        }
        let want: u64 = (self.window_start as u64).saturating_add(
            self.window_samples as u64,
        ).saturating_add(self.extra_samples);
        let end: usize = if want > self.sample_count as u64 {
            self.sample_count
        } else {
            want as usize
        };
        Some((self.window_start, end))
    }

    /// Advances past the current window after it took `elapsed_us` of wall
    /// clock to process and pace: the next window starts where this one
    /// ended, and it will be extended by the rounded sample equivalent of
    /// the time by which processing overran the nominal window duration.
    pub fn advance(&mut self, elapsed_us: u64)
        requires
            old(self).wf(),
            old(self).window_start < old(self).sample_count,
        ensures
            final(self).wf(),
            final(self).sample_count == old(self).sample_count,
            final(self).samples_per_second == old(self).samples_per_second,
            final(self).window_samples == old(self).window_samples,
            final(self).window_start == old(self).spec_window_end(),
            final(self).extra_samples as int == if elapsed_us > NOMINAL_WINDOW_US {
                sat64(
                    spec_drift(
                        elapsed_us - NOMINAL_WINDOW_US,
                        old(self).samples_per_second as int,
                    ),
                )
            } else {
                0
            },
    {
        let want: u64 = (self.window_start as u64).saturating_add(
            self.window_samples as u64,
        ).saturating_add(self.extra_samples);
        let end: usize = if want > self.sample_count as u64 {
            self.sample_count
        } else {
            want as usize
        };
        self.window_start = end;
        self.extra_samples = if elapsed_us > NOMINAL_WINDOW_US {
            drift_samples(elapsed_us - NOMINAL_WINDOW_US, self.samples_per_second)
        } else {
            0
        };
    }
}

} // verus!
