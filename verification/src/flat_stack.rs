//! The four-band flat stack: two power spectra become nine lamp commands.
//!
//! A level is an integer number of hundredths of a decibel, the resolution
//! of the weighting table.  Per channel, each of the 256 bins is averaged
//! over the spectra of one capture window and weighted; four bands take the
//! highest level in their range of bins; a response curve turns each band
//! into an intensity from 0 to 31.  The left bands fill the lamps below the
//! fill lamp, the right bands mirror them above it, and the fill lamp gets
//! what the eight bands leave of 255.

use vstd::prelude::*;
use crate::audio::WEIGHT;
use crate::control::{Algorithm, LedCommand};

verus! {

/// Bins in one spectrum.
pub const BINS: usize = 256;

/// The whole spectra that lie end to end in `spectrum`.
pub open spec fn windows(spectrum: Seq<i32>) -> int {
    spectrum.len() as int / BINS as int
}

/// Bin `bin` summed over the first `n` spectra.
pub open spec fn bin_sum(spectrum: Seq<i32>, bin: int, n: int) -> int
    decreases n,
{
    if n <= 0 {
        0
    } else {
        bin_sum(spectrum, bin, n - 1) + spectrum[bin + (n - 1) * BINS as int]
    }
}

/// `a / n` with the fraction dropped; `n` is positive.
pub open spec fn toward_zero(a: int, n: int) -> int {
    if a >= 0 {
        a / n
    } else {
        -((-a) / n)
    }
}

/// Mean of bin `bin` over the spectra of the window, the fraction of a
/// hundredth dropped.
pub open spec fn mean_level(spectrum: Seq<i32>, bin: int) -> int {
    toward_zero(bin_sum(spectrum, bin, windows(spectrum)), windows(spectrum))
}

/// Mean of bin `bin` with the bin's weight added.
pub open spec fn weighted_level(spectrum: Seq<i32>, bin: int) -> int {
    mean_level(spectrum, bin) + WEIGHT[bin]
}

/// The weighted level of each of the 256 bins.
pub open spec fn weighted_levels(spectrum: Seq<i32>) -> Seq<int> {
    Seq::new(BINS as nat, |bin: int| weighted_level(spectrum, bin))
}

/// The levels as plain integers.
pub open spec fn as_ints(levels: Seq<i64>) -> Seq<int> {
    levels.map_values(|v: i64| v as int)
}

/// Averages each bin over the spectra that lie end to end in `spectrum`
/// and adds the bin's weight.
pub fn weigh(spectrum: &[i32]) -> (levels: Vec<i64>)
    requires
        spectrum@.len() >= BINS,
    ensures
        levels@.len() == BINS,
        as_ints(levels@) == weighted_levels(spectrum@),
{
    let n: usize = spectrum.len() / BINS;
    let mut levels: Vec<i64> = Vec::with_capacity(BINS);
    let mut bin: usize = 0;
    while bin < BINS
        invariant
            bin <= BINS,
            n == windows(spectrum@),
            n * BINS <= spectrum@.len() <= usize::MAX,
            n >= 1,
            levels@.len() == bin,
            forall|i: int| 0 <= i < bin ==> levels@[i] as int == weighted_level(spectrum@, i),
        decreases BINS - bin,
    {
        let mut sum: i128 = 0;
        let mut w: usize = 0;
        while w < n
            invariant
                bin < BINS,
                w <= n,
                n == windows(spectrum@),
                n * BINS <= spectrum@.len() <= usize::MAX,
                sum == bin_sum(spectrum@, bin as int, w as int),
                -0x8000_0000 * w <= sum <= 0x8000_0000 * w,
            decreases n - w,
        {
            sum = sum + spectrum[bin + w * BINS] as i128;
            w += 1;
        }
        let mean: i128 = sum / (n as i128);
        assert(mean == toward_zero(sum as int, n as int));
        assert(-0x8000_0000 <= mean <= 0x8000_0000) by (nonlinear_arith)
            requires
                mean == toward_zero(sum as int, n as int),
                -0x8000_0000 * n <= sum <= 0x8000_0000 * n,
                n >= 1,
        ;
        levels.push(mean as i64 + WEIGHT[bin] as i64);
        bin += 1;
    }
    assert(as_ints(levels@) =~= weighted_levels(spectrum@));
    levels
}

/// First bin of each band: bass below the woofer, woofer, midrange and
/// tweeter.  Bin 0, the constant part of the signal, belongs to none.
pub const BAND_START: [usize; 4] = [1, 3, 6, 21];

/// The bin behind the last one of each band.
pub const BAND_END: [usize; 4] = [3, 6, 21, 256];

/// The highest of the levels from bin `lo` up to, not including, bin `hi`.
pub open spec fn peak(levels: Seq<int>, lo: int, hi: int) -> int
    decreases hi - lo,
{
    if hi - lo <= 1 {
        levels[lo]
    } else {
        let below = peak(levels, lo, hi - 1);
        if levels[hi - 1] >= below {
            levels[hi - 1]
        } else {
            below
        }
    }
}

/// The peak of each of the four bands.
pub open spec fn band_peaks(levels: Seq<int>) -> Seq<int> {
    Seq::new(4, |k: int| peak(levels, BAND_START[k] as int, BAND_END[k] as int))
}

/// The peak of a range of bins is a level of that range, and no level of
/// the range is higher.
pub proof fn lemma_peak_is_highest(levels: Seq<int>, lo: int, hi: int)
    requires
        0 <= lo < hi <= levels.len(),
    ensures
        forall|i: int| lo <= i < hi ==> levels[i] <= peak(levels, lo, hi),
        exists|i: int| lo <= i < hi && levels[i] == peak(levels, lo, hi),
    decreases hi - lo,
{
    if hi - lo > 1 {
        lemma_peak_is_highest(levels, lo, hi - 1);
        let i = choose|i: int| lo <= i < hi - 1 && levels[i] == peak(levels, lo, hi - 1);
        if levels[hi - 1] >= peak(levels, lo, hi - 1) {
            assert(levels[hi - 1] == peak(levels, lo, hi));
        } else {
            assert(levels[i] == peak(levels, lo, hi));
        }
    } else {
        assert(levels[lo] == peak(levels, lo, hi));
    }
}

/// Finds the highest level from bin `lo` up to, not including, bin `hi`.
pub fn peak_level(levels: &[i64], lo: usize, hi: usize) -> (r: i64)
    requires
        lo < hi <= levels@.len(),
    ensures
        r as int == peak(as_ints(levels@), lo as int, hi as int),
{
    let mut r: i64 = levels[lo];
    let mut i: usize = lo + 1;
    while i < hi
        invariant
            lo < i <= hi <= levels@.len(),
            r as int == peak(as_ints(levels@), lo as int, i as int),
        decreases hi - i,
    {
        if levels[i] >= r {
            r = levels[i];
        }
        i += 1;
    }
    r
}

/// Reduces 256 weighted levels to the peaks of the four bands.
pub fn bands(levels: &[i64]) -> (r: [i64; 4])
    requires
        levels@.len() >= BINS,
    ensures
        as_ints(r@) == band_peaks(as_ints(levels@)),
{
    let r = [
        peak_level(levels, BAND_START[0], BAND_END[0]),
        peak_level(levels, BAND_START[1], BAND_END[1]),
        peak_level(levels, BAND_START[2], BAND_END[2]),
        peak_level(levels, BAND_START[3], BAND_END[3]),
    ];
    assert(as_ints(r@) =~= band_peaks(as_ints(levels@)));
    r
}

/// Lowest level that a response curve tells from silence: -35 dB.
pub const FLOOR: i64 = -3500;

/// Highest intensity of a band.
pub const TOP: u8 = 31;

/// `x`, or the nearer of `lo` and `hi` when it lies outside them.
pub open spec fn clamp(x: int, lo: int, hi: int) -> int {
    if x < lo {
        lo
    } else if x > hi {
        hi
    } else {
        x
    }
}

/// The integer nearest to `p / q`, the upper one of two that are equally
/// near; `q` is positive.
pub open spec fn round_ratio(p: int, q: int) -> int {
    (2 * p + q) / (2 * q)
}

/// Linear response: `(dB + 35) * 2 * 0.31`, rounded, kept within 0 and 31.
pub open spec fn linear_intensity(level: int) -> int {
    clamp(round_ratio((level - FLOOR) * 2 * 31, 100 * 100int), 0, TOP as int)
}

/// Quadratic response: `(max(dB + 35, 0) / 5)^2 * 0.31`, rounded, kept
/// within 0 and 31.
pub open spec fn quadratic_intensity(level: int) -> int {
    let above = if level > FLOOR {
        level - FLOOR
    } else {
        0
    };
    clamp(round_ratio(above * above * 31, 500 * 500 * 100int), 0, TOP as int)
}

/// The intensity that `alg` gives a band at `level`.
pub open spec fn intensity_of(alg: Algorithm, level: int) -> int {
    match alg {
        Algorithm::Linear => linear_intensity(level),
        Algorithm::Quadratic => quadratic_intensity(level),
    }
}

/// A ratio that is not positive rounds to nothing above 0; one of at least
/// `k` rounds to at least `k`.
proof fn lemma_round_ratio_bounds(p: int, q: int, k: int)
    requires
        q > 0,
    ensures
        p <= 0 ==> round_ratio(p, q) <= 0,
        p >= k * q ==> round_ratio(p, q) >= k,
{
    if p <= 0 {
        assert((2 * p + q) / (2 * q) <= 0) by (nonlinear_arith)
            requires
                p <= 0,
                q > 0,
        ;
    }
    if p >= k * q {
        assert((2 * p + q) / (2 * q) >= k) by (nonlinear_arith)
            requires
                p >= k * q,
                q > 0,
        ;
    }
}

/// Applies the response curve `alg` to one band.
pub fn intensity(alg: Algorithm, level: i64) -> (r: u8)
    ensures
        r as int == intensity_of(alg, level as int),
        r <= TOP,
{
    if level <= FLOOR {
        proof {
            // nothing above the floor: neither ratio is positive
            lemma_round_ratio_bounds((level - FLOOR) * 2 * 31, 100 * 100int, 0);
            lemma_round_ratio_bounds(0, 500 * 500 * 100int, 0);
        }
        0
    } else if level >= FLOOR + 5000 {
        proof {
            // 50 dB above the floor is where both curves reach the top
            let above = level - FLOOR;
            lemma_round_ratio_bounds(above * 2 * 31, 100 * 100int, 31);
            assert(above * above >= 5000 * 5000) by (nonlinear_arith)
                requires
                    above >= 5000,
            ;
            lemma_round_ratio_bounds(above * above * 31, 500 * 500 * 100int, 31);
        }
        TOP
    } else {
        let above: i64 = level - FLOOR;
        match alg {
            Algorithm::Linear => {
                let r: i64 = (above * 124 + 10000) / 20000;
                r as u8
            },
            Algorithm::Quadratic => {
                assert(0 <= above * above < 5000 * 5000) by (nonlinear_arith)
                    requires
                        0 < above < 5000,
                ;
                let r: i64 = (above * above * 62 + 25000000) / 50000000;
                r as u8
            },
        }
    }
}

/// What four bands take of the 255 that a row has to give: each its
/// intensity and one more.
pub open spec fn spent(bands: Seq<u8>) -> int {
    (bands[0] + 1) + (bands[1] + 1) + (bands[2] + 1) + (bands[3] + 1)
}

/// What is left for the fill lamp.  Eight bands at the top take 256; the
/// remainder then wraps round to 255.
pub open spec fn fill_of(left: Seq<u8>, right: Seq<u8>) -> int {
    (255 - spent(left) - spent(right)) % 256
}

/// The command for the lamp at `element`, not yet stamped with a time.
pub open spec fn lamp(element: int, color: int, cmd: int) -> LedCommand {
    LedCommand { element: element as u8, color: color as u8, cmd: cmd as u8, time: 0 }
}

/// The row of nine lamps: the left bands from the lowest up, the fill lamp,
/// the right bands from the highest down.  A band's lamp has the band's
/// number, 1 to 4, as its colour.
pub open spec fn flat_stack_of(left: Seq<u8>, right: Seq<u8>) -> Seq<LedCommand> {
    seq![
        lamp(0, 1, left[0] as int),
        lamp(1, 2, left[1] as int),
        lamp(2, 3, left[2] as int),
        lamp(3, 4, left[3] as int),
        lamp(4, 0, fill_of(left, right)),
        lamp(5, 4, right[3] as int),
        lamp(6, 3, right[2] as int),
        lamp(7, 2, right[1] as int),
        lamp(8, 1, right[0] as int),
    ]
}

/// What four bands take.
fn taken(bands: &[u8; 4]) -> (r: u16)
    ensures
        r as int == spent(bands@),
{
    bands[0] as u16 + 1 + (bands[1] as u16 + 1) + (bands[2] as u16 + 1) + (bands[3] as u16 + 1)
}

/// Lays out the nine commands for the intensities of the left and right
/// bands, lowest band first.
pub fn flat_stack(left: &[u8; 4], right: &[u8; 4]) -> (r: [LedCommand; 9])
    ensures
        r@ == flat_stack_of(left@, right@),
{
    let sum: u16 = taken(left) + taken(right);
    let fill: u8 = 255u8.wrapping_sub((sum % 256) as u8);
    assert(fill as int == fill_of(left@, right@));
    let r = [
        LedCommand { element: 0, color: 1, cmd: left[0], time: 0 },
        LedCommand { element: 1, color: 2, cmd: left[1], time: 0 },
        LedCommand { element: 2, color: 3, cmd: left[2], time: 0 },
        LedCommand { element: 3, color: 4, cmd: left[3], time: 0 },
        LedCommand { element: 4, color: 0, cmd: fill, time: 0 },
        LedCommand { element: 5, color: 4, cmd: right[3], time: 0 },
        LedCommand { element: 6, color: 3, cmd: right[2], time: 0 },
        LedCommand { element: 7, color: 2, cmd: right[1], time: 0 },
        LedCommand { element: 8, color: 1, cmd: right[0], time: 0 },
    ];
    assert(r@ =~= flat_stack_of(left@, right@));
    r
}

/// The intensities of the four bands of one channel, lowest band first.
pub open spec fn band_intensities(alg: Algorithm, spectrum: Seq<i32>) -> Seq<u8> {
    let peaks = band_peaks(weighted_levels(spectrum));
    Seq::new(4, |k: int| intensity_of(alg, peaks[k]) as u8)
}

/// The nine commands for the spectra of the two channels.  With `invert`
/// the channels change sides.
pub open spec fn s4fs_of(left: Seq<i32>, right: Seq<i32>, alg: Algorithm, invert: bool) -> Seq<
    LedCommand,
> {
    if invert {
        flat_stack_of(band_intensities(alg, right), band_intensities(alg, left))
    } else {
        flat_stack_of(band_intensities(alg, left), band_intensities(alg, right))
    }
}

/// Weighs one channel's spectra, takes the peaks of the bands and applies
/// the response curve.
pub fn channel_intensities(alg: Algorithm, spectrum: &[i32]) -> (r: [u8; 4])
    requires
        spectrum@.len() >= BINS,
    ensures
        r@ == band_intensities(alg, spectrum@),
{
    let levels = weigh(spectrum);
    let peaks = bands(levels.as_slice());
    let r = [
        intensity(alg, peaks[0]),
        intensity(alg, peaks[1]),
        intensity(alg, peaks[2]),
        intensity(alg, peaks[3]),
    ];
    proof {
        let p = band_peaks(weighted_levels(spectrum@));
        assert(as_ints(peaks@) == p);
        assert forall|k: int| 0 <= k < 4 implies peaks@[k] as int == p[k] by {
            assert(as_ints(peaks@)[k] == peaks@[k] as int);
        }
        assert(r@ =~= band_intensities(alg, spectrum@));
    }
    r
}

/// The four-band flat stack: one capture window's spectra of the left and
/// the right channel, each 256 bins long or several such spectra end to end,
/// become the nine commands of the row.
pub fn process_s4fs(left: &[i32], right: &[i32], alg: Algorithm, invert: bool) -> (r: [LedCommand; 9])
    requires
        left@.len() >= BINS,
        right@.len() == left@.len(),
    ensures
        r@ == s4fs_of(left@, right@, alg, invert),
{
    let l = channel_intensities(alg, left);
    let r = channel_intensities(alg, right);
    if invert {
        flat_stack(&r, &l)
    } else {
        flat_stack(&l, &r)
    }
}

/// With `invert` the left channel's spectra take the place of the right
/// channel's and the other way round, and nothing else changes: the row is
/// the one that the exchanged spectra give without `invert`; each band's
/// intensity shows on the lamp that mirrors its own; and the fill lamp is
/// what it is without the exchange.
pub proof fn lemma_invert_swaps_channels(left: Seq<i32>, right: Seq<i32>, alg: Algorithm)
    ensures
        s4fs_of(left, right, alg, true) == s4fs_of(right, left, alg, false),
        forall|k: int|
            0 <= k < 4 ==> s4fs_of(left, right, alg, true)[k].cmd == (#[trigger] s4fs_of(
                left,
                right,
                alg,
                false,
            )[8 - k]).cmd && s4fs_of(left, right, alg, true)[8 - k].cmd == s4fs_of(
                left,
                right,
                alg,
                false,
            )[k].cmd,
        s4fs_of(left, right, alg, true)[4] == s4fs_of(left, right, alg, false)[4],
{
}

} // verus!
