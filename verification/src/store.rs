//! The latest published analysis result and the recent pitch history.

use crate::harmonic::HARMONICS;
use crate::history::{pushed, pushed_all, FrequencyHistory};
use crate::formant::FORMANT_SPEC_SIZE;
use crate::window::BUFFER_SIZE;
use vstd::prelude::*;

verus! {

/// The number of bins in a magnitude spectrum: half the window.
pub const SPECTRUM_SIZE: usize = BUFFER_SIZE / 2;

/// The number of cycles whose pitch is remembered.
pub const HISTORY_SIZE: usize = 201;

/// The loudness, in decibels, that is reported for a window without any
/// signal, and below which no loudness is reported.
pub const LOUDNESS_FLOOR_DB: i32 = -100;

/// What one analysis cycle finds in the window: loudness, the fundamental
/// frequency if the window is voiced, the magnitude spectrum as pairs of
/// frequency and magnitude, the harmonic gains, the formant envelope as pairs
/// of frequency and response, and the formant peaks.
#[derive(Debug, Clone, PartialEq)]
pub struct Feature<S, D> {
    pub rms: S,
    pub freq: Option<S>,
    pub spectrum: Vec<(S, S)>,
    pub gains: Vec<S>,
    pub formant_spec: Vec<(D, D)>,
    pub formant_peak: Vec<D>,
}

/// A `Feature` as plain values.
pub ghost struct FeatureView<S, D> {
    pub rms: S,
    pub freq: Option<S>,
    pub spectrum: Seq<(S, S)>,
    pub gains: Seq<S>,
    pub formant_spec: Seq<(D, D)>,
    pub formant_peak: Seq<D>,
}

impl<S, D> View for Feature<S, D> {
    type V = FeatureView<S, D>;

    open spec fn view(&self) -> FeatureView<S, D> {
        FeatureView {
            rms: self.rms,
            freq: self.freq,
            spectrum: self.spectrum@,
            gains: self.gains@,
            formant_spec: self.formant_spec@,
            formant_peak: self.formant_peak@,
        }
    }
}

impl<S, D> FeatureView<S, D> {
    /// The spectrum, the gain vector and the envelope have their fixed
    /// lengths.
    pub open spec fn well_formed(self) -> bool {
        &&& self.spectrum.len() == SPECTRUM_SIZE
        &&& self.gains.len() == HARMONICS
        &&& self.formant_spec.len() == FORMANT_SPEC_SIZE
    }
}

/// The result of a cycle that heard nothing: unvoiced, no formant peaks,
/// `silence` for every loudness, frequency, magnitude and gain, and `flat` for
/// every point of the envelope.
pub open spec fn silent_view<S, D>(silence: S, flat: D) -> FeatureView<S, D> {
    FeatureView {
        rms: silence,
        freq: None,
        spectrum: Seq::new(SPECTRUM_SIZE as nat, |i: int| (silence, silence)),
        gains: Seq::new(HARMONICS as nat, |i: int| silence),
        formant_spec: Seq::new(FORMANT_SPEC_SIZE as nat, |i: int| (flat, flat)),
        formant_peak: Seq::empty(),
    }
}

/// A copy of `source`.
fn copy_of<T: Copy>(source: &Vec<T>) -> (copy: Vec<T>)
    ensures
        copy@ == source@,
{
    let mut copy: Vec<T> = Vec::new();
    let mut i: usize = 0;
    while i < source.len()
        invariant
            i <= source.len(),
            copy@ == source@.take(i as int),
        decreases source.len() - i,
    {
        copy.push(source[i]);
        i += 1;
        assert(copy@ =~= source@.take(i as int));
    }
    assert(source@.take(i as int) =~= source@);
    copy
}

/// `len` entries, each of them `fill`.
fn filled<T: Copy>(len: usize, fill: T) -> (all: Vec<T>)
    ensures
        all@ == Seq::new(len as nat, |i: int| fill),
{
    let mut all: Vec<T> = Vec::new();
    let mut n: usize = 0;
    while n < len
        invariant
            n <= len,
            all@ == Seq::new(n as nat, |i: int| fill),
        decreases len - n,
    {
        all.push(fill);
        n += 1;
        assert(all@ =~= Seq::new(n as nat, |i: int| fill));
    }
    all
}

impl<S: Copy, D: Copy> Feature<S, D> {
    /// The result of a cycle that heard nothing.
    pub fn silent(silence: S, flat: D) -> (feature: Self)
        ensures
            feature@ == silent_view(silence, flat),
            feature@.well_formed(),
    {
        Feature {
            rms: silence,
            freq: None,
            spectrum: filled(SPECTRUM_SIZE, (silence, silence)),
            gains: filled(HARMONICS, silence),
            formant_spec: filled(FORMANT_SPEC_SIZE, (flat, flat)),
            formant_peak: Vec::new(),
        }
    }

    /// A copy of this result.
    pub fn duplicate(&self) -> (copy: Self)
        ensures
            copy@ == self@,
    {
        Feature {
            rms: self.rms,
            freq: self.freq,
            spectrum: copy_of(&self.spectrum),
            gains: copy_of(&self.gains),
            formant_spec: copy_of(&self.formant_spec),
            formant_peak: copy_of(&self.formant_peak),
        }
    }
}

/// Holds the result of the latest cycle, whole, and the pitch of the last
/// `HISTORY_SIZE` cycles, oldest first, with `None` for an unvoiced cycle.
pub struct ResultStore<S, D> {
    latest: Feature<S, D>,
    freq_history: FrequencyHistory<Option<S>>,
}

/// A `ResultStore` as plain values: the result on show and the remembered
/// pitches, oldest first.
pub ghost struct StoreView<S, D> {
    pub latest: FeatureView<S, D>,
    pub history: Seq<Option<S>>,
}

impl<S, D> StoreView<S, D> {
    /// The result on show has its fixed lengths and the history is full.
    pub open spec fn well_formed(self) -> bool {
        &&& self.latest.well_formed()
        &&& self.history.len() == HISTORY_SIZE
    }

    /// The store after `feature` is published: it shows `feature`, all of it
    /// and nothing else, and the pitch of `feature` is the newest entry of
    /// the history.
    pub open spec fn published(self, feature: FeatureView<S, D>) -> StoreView<S, D> {
        StoreView { latest: feature, history: pushed(self.history, feature.freq) }
    }

    /// The store after the `features` are published one by one, first to
    /// last.
    pub open spec fn published_all(self, features: Seq<FeatureView<S, D>>) -> StoreView<S, D>
        decreases features.len(),
    {
        if features.len() == 0 {
            self
        } else {
            self.published_all(features.drop_last()).published(features.last())
        }
    }
}

impl<S, D> View for ResultStore<S, D> {
    type V = StoreView<S, D>;

    closed spec fn view(&self) -> StoreView<S, D> {
        StoreView { latest: self.latest@, history: self.freq_history@ }
    }
}

impl<S: Copy, D: Copy> ResultStore<S, D> {
    /// A store that shows silence and remembers only unvoiced cycles.
    pub fn new(silence: S, flat: D) -> (store: Self)
        ensures
            store@.well_formed(),
            store@.latest == silent_view(silence, flat),
            store@.history == Seq::new(HISTORY_SIZE as nat, |i: int| None::<S>),
    {
        ResultStore {
            latest: Feature::silent(silence, flat),
            freq_history: FrequencyHistory::new(HISTORY_SIZE, None),
        }
    }

    /// Publishes the result of a cycle: it replaces the result on show as a
    /// whole, and its pitch becomes the newest entry of the history.
    pub fn push(&mut self, f: &Feature<S, D>)
        requires
            old(self)@.well_formed(),
            f@.well_formed(),
        ensures
            final(self)@ == old(self)@.published(f@),
            final(self)@.well_formed(),
    {
        self.latest = f.duplicate();
        self.freq_history.push(f.freq);
    }

    /// A copy of the whole result on show.
    pub fn snapshot(&self) -> (feature: Feature<S, D>)
        ensures
            feature@ == self@.latest,
    {
        self.latest.duplicate()
    }

    /// The loudness of the latest cycle: the root mean square of its window.
    pub fn rms(&self) -> (rms: S)
        ensures
            rms == self@.latest.rms,
    {
        self.latest.rms
    }

    /// A copy of the pitch history, oldest first.
    pub fn freq_history(&self) -> (history: Vec<Option<S>>)
        ensures
            history@ == self@.history,
    {
        self.freq_history.values()
    }

    /// A copy of the magnitude spectrum of the latest cycle.
    pub fn spectrum(&self) -> (spectrum: Vec<(S, S)>)
        ensures
            spectrum@ == self@.latest.spectrum,
    {
        copy_of(&self.latest.spectrum)
    }

    /// A copy of the harmonic gains of the latest cycle.
    pub fn gains(&self) -> (gains: Vec<S>)
        ensures
            gains@ == self@.latest.gains,
    {
        copy_of(&self.latest.gains)
    }

    /// A copy of the formant envelope of the latest cycle.
    pub fn formant_spec(&self) -> (envelope: Vec<(D, D)>)
        ensures
            envelope@ == self@.latest.formant_spec,
    {
        copy_of(&self.latest.formant_spec)
    }

    /// A copy of the formant peaks of the latest cycle.
    pub fn formant_peak(&self) -> (peaks: Vec<D>)
        ensures
            peaks@ == self@.latest.formant_peak,
    {
        copy_of(&self.latest.formant_peak)
    }
}

/// Whatever was published before, the store shows the result that was
/// published last, all of it: no part of what is on show stems from an
/// earlier publication. Its history is the old one after the pitches of the
/// published results arrived in their order.
pub proof fn store_shows_last_published<S, D>(
    store: StoreView<S, D>,
    features: Seq<FeatureView<S, D>>,
)
    ensures
        features.len() > 0 ==> store.published_all(features).latest == features.last(),
        features.len() == 0 ==> store.published_all(features) == store,
        store.published_all(features).history == pushed_all(
            store.history,
            features.map_values(|f: FeatureView<S, D>| f.freq),
        ),
    decreases features.len(),
{
    let pitches = features.map_values(|f: FeatureView<S, D>| f.freq);
    if features.len() > 0 {
        store_shows_last_published(store, features.drop_last());
        assert(pitches.drop_last() =~= features.drop_last().map_values(
            |f: FeatureView<S, D>| f.freq,
        ));
    }
}

} // verus!
