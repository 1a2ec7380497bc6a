//! Choosing the formant peaks among the resonances of the vocal-tract model.
//!
//! A resonance frequency comes in as a key: an unsigned number that is
//! ordered like the frequency it stands for.

use vstd::prelude::*;
use vstd::relations::{sorted_by, total_ordering};
use vstd::seq_lib::*;

verus! {

/// The number of coefficients of the all-pole model.
pub const LPC_DEPTH: usize = 20;

/// The number of points at which the spectral envelope is evaluated.
pub const FORMANT_SPEC_SIZE: usize = 512;

/// The factor by which the window is decimated before the model is fitted.
pub const DECIMATION: usize = 2;

/// The cut-off of the high-pass filter, in hertz.
pub const HIGH_PASS_HZ: usize = 50;

/// The width, in hertz, of the margin above zero and below the resampled
/// Nyquist frequency in which a resonance does not count as a formant.
pub const BAND_MARGIN_HZ: usize = 100;

/// The keys that lie strictly between `lower` and `upper`.
pub open spec fn band(lower: u64, upper: u64) -> spec_fn(u64) -> bool {
    |key: u64| lower < key < upper
}

/// No entry is greater than a later one.
pub open spec fn ascending(keys: Seq<u64>) -> bool {
    forall|i: int, j: int| 0 <= i < j < keys.len() ==> keys[i] <= keys[j]
}

/// The rate of the decimated signal.
pub fn resampled_rate(samplerate: usize) -> (rate: usize)
    ensures
        rate == samplerate / DECIMATION,
{
    samplerate / DECIMATION
}

/// The number of samples left of `len` after decimation: one for each full
/// group and one for a last, shorter group.
pub fn resampled_len(len: usize) -> (n: usize)
    ensures
        n == (len + DECIMATION - 1) / DECIMATION as int,
{
    len / DECIMATION + len % DECIMATION
}

/// Puts `key` into ascending `peaks` behind every entry that is not greater.
fn insert_ascending(peaks: &mut Vec<u64>, key: u64)
    requires
        ascending(old(peaks)@),
    ensures
        ascending(final(peaks)@),
        final(peaks)@.to_multiset() == old(peaks)@.to_multiset().insert(key),
{
    let mut at: usize = 0;
    while at < peaks.len() && peaks[at] <= key
        invariant
            at <= peaks.len(),
            forall|i: int| 0 <= i < at ==> peaks[i] <= key,
        decreases peaks.len() - at,
    {
        at += 1;
    }
    proof {
        to_multiset_insert(peaks@, at as int, key);
    }
    peaks.insert(at, key);
}

/// The formant peaks among the resonances `keys`: those strictly inside the
/// band from `lower` to `upper`, in ascending order. A resonance that occurs
/// several times is kept as often.
pub fn select_peaks(keys: &Vec<u64>, lower: u64, upper: u64) -> (peaks: Vec<u64>)
    ensures
        ascending(peaks@),
        peaks@.to_multiset() == keys@.filter(band(lower, upper)).to_multiset(),
        forall|i: int| 0 <= i < peaks.len() ==> lower < #[trigger] peaks[i] < upper,
        peaks.len() <= keys.len(),
{
    let mut peaks: Vec<u64> = Vec::new();
    let mut i: usize = 0;
    assert(keys@.take(0).filter(band(lower, upper)) =~= Seq::<u64>::empty()) by {
        reveal(Seq::filter);
    }
    while i < keys.len()
        invariant
            i <= keys.len(),
            ascending(peaks@),
            peaks@.to_multiset() == keys@.take(i as int).filter(band(lower, upper)).to_multiset(),
        decreases keys.len() - i,
    {
        let key = keys[i];
        proof {
            assert(keys@.take(i + 1) =~= keys@.take(i as int).push(key));
            keys@.take(i as int).lemma_filter_push(key, band(lower, upper));
            to_multiset_build(keys@.take(i as int).filter(band(lower, upper)), key);
        }
        if lower < key && key < upper {
            insert_ascending(&mut peaks, key);
        }
        i += 1;
    }
    proof {
        let chosen = keys@.filter(band(lower, upper));
        assert(keys@.take(i as int) =~= keys@);
        to_multiset_len(peaks@);
        to_multiset_len(chosen);
        keys@.lemma_filter_len(band(lower, upper));
        assert forall|i: int| 0 <= i < peaks.len() implies lower < #[trigger] peaks[i] < upper by {
            to_multiset_contains(peaks@, peaks[i]);
            to_multiset_contains(chosen, peaks[i]);
            assert(peaks@.contains(peaks[i]));
            keys@.lemma_filter_contains_rev(band(lower, upper), peaks[i]);
        }
    }
    peaks
}

/// The formant peaks of one cycle. Where the search for resonances found
/// them, they are the peaks that `select_peaks` chooses; where it failed, the
/// cycle has no peaks.
pub fn formant_peaks(resonances: Option<&Vec<u64>>, lower: u64, upper: u64) -> (peaks: Vec<u64>)
    ensures
        match resonances {
            Some(keys) => {
                &&& ascending(peaks@)
                &&& peaks@.to_multiset() == keys@.filter(band(lower, upper)).to_multiset()
            },
            None => peaks@ == Seq::<u64>::empty(),
        },
        forall|i: int| 0 <= i < peaks.len() ==> lower < #[trigger] peaks[i] < upper,
{
    match resonances {
        Some(keys) => select_peaks(keys, lower, upper),
        None => Vec::new(),
    }
}

/// The choice of peaks is settled by what `select_peaks` promises: two lists
/// in ascending order that hold the same keys, each as often as the other,
/// are one and the same list.
pub proof fn peaks_are_determined(first: Seq<u64>, second: Seq<u64>)
    requires
        ascending(first),
        ascending(second),
        first.to_multiset() == second.to_multiset(),
    ensures
        first == second,
{
    let at_most = |a: u64, b: u64| a <= b;
    assert(total_ordering(at_most));
    assert(sorted_by(first, at_most));
    assert(sorted_by(second, at_most));
    lemma_sorted_unique(first, second, at_most);
}

} // verus!
