//! Spectral transform: frequency labels and amplitudes for one sample window.
//!
//! A window of `n` real samples has `n / 2` meaningful spectral bins (the
//! upper half of the complex spectrum is redundant for real input). Bin `i`
//! is centered at `i * sample_rate / n` hertz; its amplitude is the complex
//! magnitude of the corresponding transform coefficient, normalized by the
//! window length and scaled by the current gain. Frequencies are carried in
//! milli-hertz, amplitudes and transform coefficients in micro-units.

use vstd::arithmetic::div_mod::lemma_div_is_ordered;
use vstd::prelude::*;

verus! {

/// Fixed-point unit: one million micro-units make 1.0.
pub const MICRO: u64 = 1_000_000;

/// Number of hundred-hertz buckets in a frame: they cover 0..20_000 Hz.
pub const BUCKET_COUNT: usize = 200;

/// One feature frame, produced once per analyzed window and handed to the
/// renderer. Band powers are clamped to `[0, MICRO]`; the hundred-hertz
/// buckets accumulate raw amplitude and are not clamped. Beat detection is
/// out of scope, so `bpm` is always zero.
#[derive(Clone, Debug)]
pub struct AudioFrame {
    pub bpm: u64,
    pub low_power: u64,
    pub mid_power: u64,
    pub high_power: u64,
    pub hundred_hz_buckets: Vec<u64>,
}

impl AudioFrame {
    /// Structural invariant of every frame the analysis emits.
    pub open spec fn wf(self) -> bool {
        &&& self.bpm == 0
        &&& self.low_power <= MICRO
        &&& self.mid_power <= MICRO
        &&& self.high_power <= MICRO
        &&& self.hundred_hz_buckets@.len() == BUCKET_COUNT
    }
}

/// Saturation of a mathematical value at the largest `u64`.
pub open spec fn sat64(x: int) -> int {
    if x > u64::MAX as int {
        u64::MAX as int
    } else {
        x
    }
}

/// Frequency of spectral bin `i`, in milli-hertz: `i * rate / n` hertz.
pub open spec fn bin_freq_mhz(rate: int, n: int, i: int) -> int {
    i * rate * 1000 / n
}

/// Integer square root: the largest `r` with `r * r <= x`.
pub open spec fn sqrt_floor(x: nat) -> nat
    decreases x,
{
    if x == 0 {
        0
    } else {
        let r = sqrt_floor((x - 1) as nat);
        if (r + 1) * (r + 1) <= x {
            r + 1
        } else {
            r
        }
    }
}

/// `sqrt_floor` is exactly the rounded-down square root.
pub proof fn lemma_sqrt_floor_bounds(x: nat)
    ensures
        sqrt_floor(x) as int * sqrt_floor(x) as int <= x as int,
        (x as int) < (sqrt_floor(x) as int + 1) * (sqrt_floor(x) as int + 1),
    decreases x,
{
    let s = sqrt_floor(x) as int;
    if x != 0 {
        lemma_sqrt_floor_bounds((x - 1) as nat);
        let r = sqrt_floor((x - 1) as nat) as int;
        if (r + 1) * (r + 1) <= x {
            assert(s == r + 1);
            assert((x as int) < (s + 1) * (s + 1)) by (nonlinear_arith)
                requires
                    r >= 0,
                    s == r + 1,
                    x as int <= (r + 1) * (r + 1) + 1,
            ;
        } else {
            assert(s == r);
            assert((x as int) < (s + 1) * (s + 1)) by (nonlinear_arith)
                requires
                    s == r,
                    (x as int) < (r + 1) * (r + 1),
            ;
        }
    } else {
        assert(s == 0);
        assert((x as int) < (s + 1) * (s + 1)) by (nonlinear_arith)
            requires
                s == 0,
                x == 0,
        ;
    }
}

/// Any `r` squeezed between the two square bounds is the square root.
pub proof fn lemma_sqrt_floor_unique(x: nat, r: nat)
    requires
        r as int * r as int <= x as int,
        (x as int) < (r as int + 1) * (r as int + 1),
    ensures
        r == sqrt_floor(x),
{
    lemma_sqrt_floor_bounds(x);
    let s = sqrt_floor(x) as int;
    let ri = r as int;
    if ri < s {
        assert((ri + 1) * (ri + 1) <= s * s) by (nonlinear_arith)
            requires
                0 <= ri + 1 <= s,
        ;
    }
    if s < ri {
        assert((s + 1) * (s + 1) <= ri * ri) by (nonlinear_arith)
            requires
                0 <= s + 1 <= ri,
        ;
    }
}

/// Executable integer square root over the full `u128` range, by binary
/// search on the answer.
pub fn isqrt(x: u128) -> (r: u64)
    ensures
        r == sqrt_floor(x as nat),
{
    let mut lo: u128 = 0;
    let mut hi: u128 = u64::MAX as u128;
    proof {
        assert((hi as int + 1) * (hi as int + 1) > u128::MAX) by (nonlinear_arith)
            requires
                hi == u64::MAX,
        ;
    }
    while lo < hi
        invariant
            lo <= hi <= u64::MAX,
            lo as int * lo as int <= x as int,
            (x as int) < (hi as int + 1) * (hi as int + 1),
        decreases hi - lo,
    {
        let mid: u128 = lo + (hi - lo + 1) / 2;
        proof {
            assert(mid as int * mid as int <= u128::MAX) by (nonlinear_arith)
                requires
                    mid <= u64::MAX,
            ;
        }
        let sq: u128 = mid * mid;
        if sq <= x {
            lo = mid;
        } else {
            hi = mid - 1;
        }
    }
    proof {
        lemma_sqrt_floor_unique(x as nat, lo as nat);
    }
    lo as u64
}

/// Amplitude of a spectral coefficient `(re, im)` in micro-units, for a
/// window of `n` samples under gain `scalar` (also in micro-units):
/// `|re + im·i| / n * scalar`, rounded down.
pub open spec fn amp_of(re: int, im: int, n: int, scalar: int) -> int {
    sqrt_floor((re * re + im * im) as nat) * scalar / (n * MICRO as int)
}

/// The amplitude actually stored, saturated at the largest `u64`.
pub open spec fn amp_sat(re: int, im: int, n: int, scalar: int) -> int {
    sat64(amp_of(re, im, n, scalar))
}

/// Every amplitude is non-negative, whatever the input coefficient.
pub proof fn lemma_amplitude_nonneg(re: int, im: int, n: int, scalar: int)
    requires
        n >= 1,
        scalar >= 0,
    ensures
        amp_of(re, im, n, scalar) >= 0,
        amp_sat(re, im, n, scalar) >= 0,
{
    let m = sqrt_floor((re * re + im * im) as nat);
    assert(m * scalar >= 0) by (nonlinear_arith)
        requires
            m >= 0,
            scalar >= 0,
    ;
    assert(n * MICRO as int >= 1) by (nonlinear_arith)
        requires
            n >= 1,
    ;
    lemma_div_is_ordered(0, m * scalar, n * MICRO as int);
}

/// Frequency labels for the bins of a window of `sample_count` samples taken
/// at `sample_rate` hertz: one label per meaningful bin, in milli-hertz.
pub fn frequency_bins(sample_rate: u32, sample_count: u32) -> (r: Vec<u64>)
    ensures
        r@.len() == sample_count / 2,
        forall|i: int|
            0 <= i < r@.len() ==> r@[i] == bin_freq_mhz(
                sample_rate as int,
                sample_count as int,
                i,
            ),
{
    let bin_count: usize = (sample_count / 2) as usize;
    let mut r: Vec<u64> = Vec::new();
    let mut i: usize = 0;
    while i < bin_count
        invariant
            i <= bin_count,
            bin_count == sample_count / 2,
            r@.len() == i,
            forall|j: int|
                0 <= j < i ==> r@[j] == bin_freq_mhz(sample_rate as int, sample_count as int, j),
        decreases bin_count - i,
    {
        proof {
            assert((i as int) * (sample_rate as int) * 1000 < u128::MAX) by (nonlinear_arith)
                requires
                    i < 0x1_0000_0000,
                    sample_rate <= u32::MAX,
            ;
        }
        let num: u128 = (i as u128) * (sample_rate as u128) * 1000;
        let f: u128 = num / (sample_count as u128);
        proof {
            assert(f <= u64::MAX) by (nonlinear_arith)
                requires
                    num == i * sample_rate * 1000,
                    f == num as int / sample_count as int,
                    i < sample_count,
                    sample_rate <= u32::MAX,
                    sample_count >= 1,
            {
                assert(num as int <= sample_count as int * (u32::MAX as int) * 1000);
                assert(num as int / sample_count as int <= (u32::MAX as int) * 1000);
            }
            assert(f == bin_freq_mhz(sample_rate as int, sample_count as int, i as int));
        }
        r.push(f as u64);
        i = i + 1;
    }
    r
}

/// The frequency labels grow strictly from bin to bin — both as
/// mathematical values and as the `u64` labels `frequency_bins` emits —
/// whenever the window is no longer than a thousand periods of a one-hertz
/// step (with integer milli-hertz labels, a window of more than
/// `1000 * rate` samples would collapse neighboring labels onto the same
/// value; a window of 2048 samples at a one-hertz rate labels its first
/// two bins 0 and 0).
pub proof fn lemma_frequency_bins_strictly_increasing(rate: int, n: int, i: int, j: int)
    requires
        1 <= rate <= u32::MAX,
        1 <= n,
        n <= 1000 * rate,
        0 <= i < j < n / 2,
    ensures
        bin_freq_mhz(rate, n, i) < bin_freq_mhz(rate, n, j),
        spec_freqs(rate, n)[i] < spec_freqs(rate, n)[j],
{
    let k = rate * 1000;
    assert(k >= n) by (nonlinear_arith)
        requires
            n <= 1000 * rate,
            k == rate * 1000,
    ;
    assert(i * k + n <= (i + 1) * k) by (nonlinear_arith)
        requires
            k >= n,
            i >= 0,
    ;
    assert((i + 1) * k <= j * k) by (nonlinear_arith)
        requires
            i + 1 <= j,
            k >= 1,
    ;
    assert((i * k + n) / n == i * k / n + 1) by {
        vstd::arithmetic::div_mod::lemma_div_plus_one(i * k, n);
        assert(i * k >= 0) by (nonlinear_arith)
            requires
                i >= 0,
                k >= 0,
        ;
    }
    lemma_div_is_ordered(i * k + n, j * k, n);
    assert(i * rate * 1000 == i * k) by (nonlinear_arith)
        requires
            k == rate * 1000,
    ;
    assert(j * rate * 1000 == j * k) by (nonlinear_arith)
        requires
            k == rate * 1000,
    ;
    lemma_bin_freq_in_range(rate, n, i);
    lemma_bin_freq_in_range(rate, n, j);
}

/// A labeled bin frequency fits a `u64`: it never reaches past half the
/// sample rate, in milli-hertz.
pub proof fn lemma_bin_freq_in_range(rate: int, n: int, i: int)
    requires
        1 <= rate <= u32::MAX,
        1 <= n,
        0 <= i < n / 2,
    ensures
        0 <= bin_freq_mhz(rate, n, i) <= 500 * rate,
{
    let k = rate * 1000;
    assert(i * k >= 0 && i * k <= n * (500 * rate)) by (nonlinear_arith)
        requires
            k == rate * 1000,
            0 <= i,
            2 * i <= n,
            rate >= 1,
    ;
    vstd::arithmetic::div_mod::lemma_div_pos_is_pos(i * k, n);
    vstd::arithmetic::div_mod::lemma_multiply_divide_le(i * k, n, 500 * rate);
    assert(i * rate * 1000 == i * k) by (nonlinear_arith)
        requires
            k == rate * 1000,
    ;
}

/// Amplitudes of a sequence of spectral coefficients, for a window of
/// `window_len` samples under gain `amplitude_scalar`. The coefficients may
/// be the full transform output or any prefix of it; the normalization
/// always uses the length of the analyzed window.
pub fn to_amplitude(input: &Vec<(i64, i64)>, window_len: usize, amplitude_scalar: u64) -> (r: Vec<
    u64,
>)
    requires
        window_len >= 1,
    ensures
        r@.len() == input@.len(),
        forall|i: int|
            0 <= i < input@.len() ==> r@[i] == amp_sat(
                input@[i].0 as int,
                input@[i].1 as int,
                window_len as int,
                amplitude_scalar as int,
            ),
{
    let mut r: Vec<u64> = Vec::new();
    let mut i: usize = 0;
    while i < input.len()
        invariant
            window_len >= 1,
            i <= input@.len(),
            r@.len() == i,
            forall|j: int|
                0 <= j < i ==> r@[j] == amp_sat(
                    input@[j].0 as int,
                    input@[j].1 as int,
                    window_len as int,
                    amplitude_scalar as int,
                ),
        decreases input@.len() - i,
    {
        let (re, im) = input[i];
        proof {
            assert(re as int * re as int >= 0 && re as int * re as int
                <= 0x4000_0000_0000_0000_0000_0000_0000_0000) by (nonlinear_arith)
                requires
                    i64::MIN <= re <= i64::MAX,
            ;
            assert(im as int * im as int >= 0 && im as int * im as int
                <= 0x4000_0000_0000_0000_0000_0000_0000_0000) by (nonlinear_arith)
                requires
                    i64::MIN <= im <= i64::MAX,
            ;
        }
        let re2: u128 = (re as i128 * re as i128) as u128;
        let im2: u128 = (im as i128 * im as i128) as u128;
        let sum2: u128 = re2 + im2;
        let mag: u64 = isqrt(sum2);
        proof {
            assert(sum2 as nat == (re as int * re as int + im as int * im as int) as nat);
        }
        let m128: u128 = mag as u128;
        let s128: u128 = amplitude_scalar as u128;
        proof {
            assert(m128 as int * s128 as int <= u128::MAX) by (nonlinear_arith)
                requires
                    m128 <= u64::MAX,
                    s128 <= u64::MAX,
            ;
        }
        let num: u128 = m128 * s128;
        let w128: u128 = window_len as u128;
        proof {
            assert(w128 as int * MICRO as int <= u128::MAX && w128 as int * MICRO as int >= 1)
                by (nonlinear_arith)
                requires
                    1 <= w128 <= u64::MAX,
            ;
        }
        let den: u128 = w128 * (MICRO as u128);
        let q: u128 = num / den;
        let a: u64 = if q > u64::MAX as u128 {
            u64::MAX
        } else {
            q as u64
        };
        proof {
            let rei = re as int;
            let imi = im as int;
            let ni = window_len as int;
            let sci = amplitude_scalar as int;
            assert(num as int == sqrt_floor((rei * rei + imi * imi) as nat) as int * sci)
                by (nonlinear_arith)
                requires
                    num as int == m128 as int * s128 as int,
                    m128 as int == sqrt_floor((rei * rei + imi * imi) as nat) as int,
                    s128 as int == sci,
            ;
            assert(den as int == ni * MICRO as int) by (nonlinear_arith)
                requires
                    den as int == w128 as int * MICRO as int,
                    w128 as int == ni,
            ;
            assert(a == amp_sat(rei, imi, ni, sci));
        }
        r.push(a);
        i = i + 1;
    }
    r
}

/// The frequency labels of a window of `n` samples, as the spectral
/// transform emits them.
pub open spec fn spec_freqs(rate: int, n: int) -> Seq<u64> {
    Seq::new((n / 2) as nat, |i: int| bin_freq_mhz(rate, n, i) as u64)
}

/// The amplitudes of a window of `n` samples with transform coefficients
/// `coeffs`, under gain `scalar`.
pub open spec fn spec_amps(coeffs: Seq<(i64, i64)>, n: int, scalar: int) -> Seq<u64> {
    Seq::new((n / 2) as nat, |i: int| amp_sat(coeffs[i].0 as int, coeffs[i].1 as int, n, scalar) as u64)
}

/// One frequency label per amplitude: a window of `n` samples always yields
/// exactly `n / 2` labeled bins.
pub proof fn lemma_bin_count(coeffs: Seq<(i64, i64)>, rate: int, n: int, scalar: int)
    requires
        n >= 0,
    ensures
        spec_freqs(rate, n).len() == n / 2,
        spec_amps(coeffs, n, scalar).len() == n / 2,
        spec_freqs(rate, n).len() == spec_amps(coeffs, n, scalar).len(),
{
}

/// Spectral transform of one window: from the complex transform
/// coefficients of `n` real samples (in micro-units) to the `n / 2` labeled
/// bins — frequency labels in milli-hertz paired index by index with
/// amplitudes in micro-units. A zero-length window degenerately yields
/// empty sequences.
pub fn compute_spectrum(coeffs: &Vec<(i64, i64)>, sample_rate: u32, amplitude_scalar: u64) -> (r: (
    Vec<u64>,
    Vec<u64>,
))
    requires
        coeffs@.len() <= u32::MAX,
    ensures
        r.0@ == spec_freqs(sample_rate as int, coeffs@.len() as int),
        r.1@ == spec_amps(coeffs@, coeffs@.len() as int, amplitude_scalar as int),
        r.0@.len() == r.1@.len() == coeffs@.len() / 2,
{
    let n = coeffs.len();
    let ghost ni = n as int;
    if n == 0 {
        let freqs: Vec<u64> = Vec::new();
        let amps: Vec<u64> = Vec::new();
        proof {
            assert(freqs@ =~= spec_freqs(sample_rate as int, ni));
            assert(amps@ =~= spec_amps(coeffs@, ni, amplitude_scalar as int));
        }
        return (freqs, amps);
    }
    let freqs = frequency_bins(sample_rate, n as u32);
    let half_len = n / 2;
    let mut half: Vec<(i64, i64)> = Vec::new();
    let mut i: usize = 0;
    while i < half_len
        invariant
            half_len <= coeffs@.len(),
            i <= half_len,
            half@ =~= coeffs@.subrange(0, i as int),
        decreases half_len - i,
    {
        half.push(coeffs[i]);
        i = i + 1;
    }
    let amps = to_amplitude(&half, n, amplitude_scalar);
    proof {
        assert(freqs@ =~= spec_freqs(sample_rate as int, ni));
        assert(amps@ =~= spec_amps(coeffs@, ni, amplitude_scalar as int));
    }
    (freqs, amps)
}

} // verus!
