//! The Mel filter bank: a fixed bank of triangular filters mapping an FFT
//! magnitude spectrum to perceptually spaced bands, with log-compression and
//! min-max normalization post-processing.
//!
//! All samples and filter weights are single-precision bit patterns
//! (see `ieee_bits`).

use vstd::prelude::*;
use crate::ieee_bits::{
    add_bits, sub_bits, mul_bits, div_bits, lt_bits, single_of_u64, floor_u64_of, spec_minnum,
    spec_maxnum, single_add, single_sub, single_mul, single_div, single_lt, single_from_u64,
    single_floor_to_u64, single_min, single_max,
};
use crate::mel_utils::{
    spec_hz_to_mel, spec_mel_to_hz, spec_linspace, hz_to_mel, mel_to_hz, linspace, ONE_BITS,
    TEN_BITS, HALF_BITS, spec_log10_single, log10_single,
};

verus! {

/// Bit pattern of ten to the minus sixth: the width below which a min-max
/// range counts as degenerate.
pub const EPS_FLAT_BITS: u32 = 0x3586_37bd;

/// Parameters for configuring Mel spectrogram generation.  The frequency
/// bounds are single-precision bit patterns.
pub struct MelParameters {
    pub n_mels: usize,
    pub f_min: u32,
    pub f_max: u32,
}

/// The FFT bin index of a frequency: the floor of
/// `(fft_size + 1) * hz / sample_rate`.
pub open spec fn spec_fft_bin(fft_size: int, sample_rate: u32, hz: u32) -> u64 {
    floor_u64_of(
        div_bits(mul_bits(add_bits(single_of_u64(fft_size as u64), ONE_BITS), hz), sample_rate),
    )
}

/// The weight of the triangular filter with the given bin edges at bin `j`:
/// a rising ramp on `[left, center)`, a falling ramp on `[center, right)`,
/// zero elsewhere; a zero-width half stays zero.
pub open spec fn spec_triangle_value(left: u64, center: u64, right: u64, j: int) -> u32 {
    if left <= j < center && center != left {
        div_bits(single_of_u64((j - left) as u64), single_of_u64((center - left) as u64))
    } else if center <= j < right && right != center {
        div_bits(single_of_u64((right - j) as u64), single_of_u64((right - center) as u64))
    } else {
        0u32
    }
}

/// The `n_mels + 2` filter boundary positions in Hz: evenly spaced in Mel
/// space between the Mel values of the frequency bounds, converted back.
pub open spec fn spec_hz_points(n_mels: int, f_min: u32, f_max: u32) -> Seq<u32> {
    spec_linspace(spec_hz_to_mel(f_min), spec_hz_to_mel(f_max), n_mels + 2).map_values(
        |m: u32| spec_mel_to_hz(m),
    )
}

/// The bin edge sequence of a bank: each Hz boundary mapped to its FFT bin.
pub open spec fn spec_bin_edges(fft_size: int, sample_rate: u32, n_mels: int, f_min: u32, f_max: u32) -> Seq<u64> {
    spec_hz_points(n_mels, f_min, f_max).map_values(
        |hz: u32| spec_fft_bin(fft_size, sample_rate, hz),
    )
}

/// The filter rows of a bank: row `i` is the triangular filter over the bin
/// edges at positions `i`, `i + 1`, `i + 2`, dense over the non-redundant
/// spectrum half.
pub open spec fn spec_bank_filters(fft_size: int, sample_rate: u32, n_mels: int, f_min: u32, f_max: u32) -> Seq<Seq<u32>> {
    let edges = spec_bin_edges(fft_size, sample_rate, n_mels, f_min, f_max);
    Seq::new(
        n_mels as nat,
        |i: int|
            Seq::new(
                (fft_size / 2 + 1) as nat,
                |j: int| spec_triangle_value(edges[i], edges[i + 1], edges[i + 2], j),
            ),
    )
}

/// The dot product of the first `n` positions of a filter row and a magnitude
/// spectrum, accumulated left to right from zero.
pub open spec fn spec_dot(row: Seq<u32>, mags: Seq<u32>, n: int) -> u32
    decreases n,
{
    if n <= 0 {
        0u32
    } else {
        add_bits(spec_dot(row, mags, n - 1), mul_bits(row[n - 1], mags[n - 1]))
    }
}

/// The running IEEE minimum of the first `n` elements, seeded with the first
/// element.
pub open spec fn spec_fold_min(s: Seq<u32>, n: int) -> u32
    decreases n,
{
    if n <= 0 {
        s[0]
    } else {
        spec_minnum(spec_fold_min(s, n - 1), s[n - 1])
    }
}

/// The running IEEE maximum of the first `n` elements, seeded with the first
/// element.
pub open spec fn spec_fold_max(s: Seq<u32>, n: int) -> u32
    decreases n,
{
    if n <= 0 {
        s[0]
    } else {
        spec_maxnum(spec_fold_max(s, n - 1), s[n - 1])
    }
}

/// Min-max normalization to the unit interval: empty stays empty; when the
/// range magnitude is below `EPS_FLAT_BITS` every output is one half;
/// otherwise each element is offset by the minimum and scaled by the range.
pub open spec fn spec_normalize(s: Seq<u32>) -> Seq<u32> {
    if s.len() == 0 {
        Seq::<u32>::empty()
    } else {
        let mn = spec_fold_min(s, s.len() as int);
        let mx = spec_fold_max(s, s.len() as int);
        if lt_bits(sub_bits(mx, mn) & 0x7fff_ffffu32, EPS_FLAT_BITS) {
            Seq::new(s.len(), |i: int| HALF_BITS)
        } else {
            Seq::new(s.len(), |i: int| div_bits(sub_bits(s[i], mn), sub_bits(mx, mn)))
        }
    }
}

/// Log compression of a sequence: each element becomes ten times the decimal
/// logarithm of the element plus the offset.
pub open spec fn spec_log_compression(s: Seq<u32>, offset: u32) -> Seq<u32> {
    s.map_values(|x: u32| mul_bits(TEN_BITS, spec_log10_single(add_bits(x, offset))))
}

/// Struct representing the Mel Filter Bank.
pub struct MelFilterBank {
    filters: Vec<Vec<u32>>,
    fft_size: usize,
    sample_rate: u32,
    n_mels: usize,
    f_min: u32,
    f_max: u32,
}

impl MelFilterBank {
    /// The filter rows as a sequence of sequences.
    pub closed spec fn filters_view(self) -> Seq<Seq<u32>> {
        self.filters@.map_values(|v: Vec<u32>| v@)
    }

    pub closed spec fn spec_fft_size(self) -> int {
        self.fft_size as int
    }

    pub closed spec fn spec_sample_rate(self) -> u32 {
        self.sample_rate
    }

    pub closed spec fn spec_n_mels(self) -> int {
        self.n_mels as int
    }

    pub closed spec fn spec_f_min(self) -> u32 {
        self.f_min
    }

    pub closed spec fn spec_f_max(self) -> u32 {
        self.f_max
    }

    /// Well-formedness: one filter row per Mel band, each row dense over the
    /// non-redundant spectrum half.
    pub open spec fn wf(self) -> bool {
        &&& self.filters_view().len() == self.spec_n_mels()
        &&& forall|i: int|
            0 <= i < self.spec_n_mels() ==> (#[trigger] self.filters_view()[i]).len()
                == self.spec_fft_size() / 2 + 1
    }

    /// Create a new MelFilterBank and compute triangular filters.
    pub fn new(fft_size: usize, sample_rate: u32, n_mels: usize, f_min: u32, f_max: u32) -> (r: Self)
        requires
            n_mels + 2 <= usize::MAX,
        ensures
            r.wf(),
            r.spec_fft_size() == fft_size,
            r.spec_sample_rate() == sample_rate,
            r.spec_n_mels() == n_mels,
            r.spec_f_min() == f_min,
            r.spec_f_max() == f_max,
            r.filters_view() =~~= spec_bank_filters(
                fft_size as int,
                sample_rate,
                n_mels as int,
                f_min,
                f_max,
            ),
    {
        let n_fft_bins: usize = fft_size / 2 + 1;

        let mel_min = hz_to_mel(f_min);
        let mel_max = hz_to_mel(f_max);
        let mel_points = linspace(mel_min, mel_max, n_mels + 2);

        let ghost hz_points_spec = spec_hz_points(n_mels as int, f_min, f_max);
        let mut hz_points: Vec<u32> = Vec::new();
        let mut k: usize = 0;
        while k < mel_points.len()
            invariant
                k <= mel_points.len(),
                mel_points@ == spec_linspace(spec_hz_to_mel(f_min), spec_hz_to_mel(f_max), n_mels + 2 as int),
                mel_points@.len() == n_mels + 2,
                hz_points@.len() == k,
                forall|t: int| 0 <= t < k ==> hz_points@[t] == spec_mel_to_hz(mel_points@[t]),
            decreases mel_points.len() - k,
        {
            let m = mel_points[k];
            hz_points.push(mel_to_hz(m));
            k = k + 1;
        }
        proof {
            assert(hz_points@ =~= hz_points_spec);
        }

        let ghost edges_spec = spec_bin_edges(fft_size as int, sample_rate, n_mels as int, f_min, f_max);
        let fft_plus_one: u32 = single_add(single_from_u64(fft_size as u64), ONE_BITS);
        let mut bin: Vec<u64> = Vec::new();
        let mut k2: usize = 0;
        while k2 < hz_points.len()
            invariant
                k2 <= hz_points.len(),
                hz_points@ == spec_hz_points(n_mels as int, f_min, f_max),
                hz_points@.len() == n_mels + 2,
                fft_plus_one == add_bits(single_of_u64(fft_size as u64), ONE_BITS),
                bin@.len() == k2,
                forall|t: int|
                    0 <= t < k2 ==> bin@[t] == spec_fft_bin(fft_size as int, sample_rate, hz_points@[t]),
            decreases hz_points.len() - k2,
        {
            let hz = hz_points[k2];
            bin.push(single_floor_to_u64(single_div(single_mul(fft_plus_one, hz), sample_rate)));
            k2 = k2 + 1;
        }
        proof {
            assert(bin@ =~= edges_spec);
        }

        let mut filters: Vec<Vec<u32>> = Vec::new();
        let mut i: usize = 0;
        while i < n_mels
            invariant
                i <= n_mels,
                n_mels + 2 <= usize::MAX,
                n_fft_bins == fft_size / 2 + 1,
                bin@ == spec_bin_edges(fft_size as int, sample_rate, n_mels as int, f_min, f_max),
                bin@.len() == n_mels + 2,
                filters@.len() == i,
                forall|t: int|
                    0 <= t < i ==> (#[trigger] filters@[t])@ =~= Seq::new(
                        (fft_size / 2 + 1) as nat,
                        |j: int| spec_triangle_value(bin@[t], bin@[t + 1], bin@[t + 2], j),
                    ),
            decreases n_mels - i,
        {
            let bin_left: u64 = bin[i];
            let bin_center: u64 = bin[i + 1];
            let bin_right: u64 = bin[i + 2];
            let mut filter: Vec<u32> = Vec::new();
            let mut j: usize = 0;
            while j < n_fft_bins
                invariant
                    j <= n_fft_bins,
                    n_fft_bins == fft_size / 2 + 1,
                    filter@.len() == j,
                    forall|t: int|
                        0 <= t < j ==> filter@[t] == spec_triangle_value(
                            bin_left,
                            bin_center,
                            bin_right,
                            t,
                        ),
                decreases n_fft_bins - j,
            {
                let ju = j as u64;
                let w: u32 = if bin_left <= ju && ju < bin_center && bin_center != bin_left {
                    single_div(single_from_u64(ju - bin_left), single_from_u64(bin_center - bin_left))
                } else if bin_center <= ju && ju < bin_right && bin_right != bin_center {
                    single_div(single_from_u64(bin_right - ju), single_from_u64(bin_right - bin_center))
                } else {
                    0u32
                };
                filter.push(w);
                j = j + 1;
            }
            filters.push(filter);
            i = i + 1;
        }

        let r = MelFilterBank { filters, fft_size, sample_rate, n_mels, f_min, f_max };
        proof {
            assert(r.filters_view() =~~= spec_bank_filters(
                fft_size as int,
                sample_rate,
                n_mels as int,
                f_min,
                f_max,
            ));
        }
        r
    }

    /// Apply the filter bank to a slice of FFT magnitudes: one dot product
    /// per filter row, over the shorter of the row and the spectrum.
    pub fn apply(&self, fft_magnitudes: &[u32]) -> (r: Vec<u32>)
        requires
            self.wf(),
        ensures
            r@.len() == self.spec_n_mels(),
            forall|i: int|
                0 <= i < self.spec_n_mels() ==> r@[i] == spec_dot(
                    #[trigger] self.filters_view()[i],
                    fft_magnitudes@,
                    if fft_magnitudes@.len() < self.spec_fft_size() / 2 + 1 {
                        fft_magnitudes@.len() as int
                    } else {
                        self.spec_fft_size() / 2 + 1
                    },
                ),
    {
        let n_fft_bins: usize = fft_magnitudes.len();
        let mut mel_output: Vec<u32> = Vec::new();
        let mut i: usize = 0;
        while i < self.n_mels
            invariant
                self.wf(),
                i <= self.n_mels,
                n_fft_bins == fft_magnitudes@.len(),
                mel_output@.len() == i,
                forall|t: int|
                    0 <= t < i ==> mel_output@[t] == spec_dot(
                        #[trigger] self.filters_view()[t],
                        fft_magnitudes@,
                        if fft_magnitudes@.len() < self.spec_fft_size() / 2 + 1 {
                            fft_magnitudes@.len() as int
                        } else {
                            self.spec_fft_size() / 2 + 1
                        },
                    ),
            decreases self.n_mels - i,
        {
            let filter: &Vec<u32> = &self.filters[i];
            let bins: usize = if n_fft_bins < filter.len() {
                n_fft_bins
            } else {
                filter.len()
            };
            let mut sum: u32 = 0;
            let mut j: usize = 0;
            while j < bins
                invariant
                    j <= bins,
                    self.wf(),
                    0 <= i < self.n_mels,
                    filter@ == self.filters_view()[i as int],
                    bins <= fft_magnitudes@.len(),
                    bins <= filter@.len(),
                    sum == spec_dot(filter@, fft_magnitudes@, j as int),
                decreases bins - j,
            {
                sum = single_add(sum, single_mul(filter[j], fft_magnitudes[j]));
                j = j + 1;
            }
            mel_output.push(sum);
            i = i + 1;
        }
        mel_output
    }

    /// Apply log compression to mel values.
    pub fn apply_log_compression(mel_values: &[u32], offset: u32) -> (r: Vec<u32>)
        ensures
            r@ =~= spec_log_compression(mel_values@, offset),
    {
        let mut out: Vec<u32> = Vec::new();
        let mut i: usize = 0;
        while i < mel_values.len()
            invariant
                i <= mel_values@.len(),
                out@.len() == i,
                forall|t: int|
                    0 <= t < i ==> out@[t] == mul_bits(
                        TEN_BITS,
                        spec_log10_single(add_bits(mel_values@[t], offset)),
                    ),
            decreases mel_values@.len() - i,
        {
            out.push(single_mul(TEN_BITS, log10_single(single_add(mel_values[i], offset))));
            i = i + 1;
        }
        out
    }

    /// Normalize Mel values to the unit interval.
    ///
    /// This keeps signal strength consistent across different audio inputs by
    /// mapping the dynamic range of the values to a standardized range.  A
    /// degenerate range yields the constant one half instead of an undefined
    /// quotient.
    pub fn normalize(mel_values: &[u32]) -> (r: Vec<u32>)
        ensures
            r@ =~= spec_normalize(mel_values@),
    {
        if mel_values.len() == 0 {
            let r: Vec<u32> = Vec::new();
            return r;
        }

        let mut min_val: u32 = mel_values[0];
        let mut max_val: u32 = mel_values[0];
        let mut k: usize = 0;
        while k < mel_values.len()
            invariant
                k <= mel_values@.len(),
                mel_values@.len() > 0,
                min_val == spec_fold_min(mel_values@, k as int),
                max_val == spec_fold_max(mel_values@, k as int),
            decreases mel_values@.len() - k,
        {
            min_val = single_min(min_val, mel_values[k]);
            max_val = single_max(max_val, mel_values[k]);
            k = k + 1;
        }

        let range: u32 = single_sub(max_val, min_val);
        if single_lt(range & 0x7fff_ffffu32, EPS_FLAT_BITS) {
            let mut out: Vec<u32> = Vec::new();
            let mut i: usize = 0;
            while i < mel_values.len()
                invariant
                    i <= mel_values@.len(),
                    out@.len() == i,
                    forall|t: int| 0 <= t < i ==> out@[t] == HALF_BITS,
                decreases mel_values@.len() - i,
            {
                out.push(HALF_BITS);
                i = i + 1;
            }
            return out;
        }

        let mut out: Vec<u32> = Vec::new();
        let mut i: usize = 0;
        while i < mel_values.len()
            invariant
                i <= mel_values@.len(),
                mel_values@.len() > 0,
                min_val == spec_fold_min(mel_values@, mel_values@.len() as int),
                max_val == spec_fold_max(mel_values@, mel_values@.len() as int),
                out@.len() == i,
                forall|t: int|
                    0 <= t < i ==> out@[t] == div_bits(
                        sub_bits(mel_values@[t], min_val),
                        sub_bits(max_val, min_val),
                    ),
            decreases mel_values@.len() - i,
        {
            out.push(single_div(single_sub(mel_values[i], min_val), single_sub(max_val, min_val)));
            i = i + 1;
        }
        out
    }
}

} // verus!
