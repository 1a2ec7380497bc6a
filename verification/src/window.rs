//! The sliding window of the most recent audio.

use std::collections::VecDeque;
use vstd::prelude::*;

verus! {

/// The number of samples that one capture chunk holds.
pub const CHUNK_SIZE: usize = 1024;

/// The number of samples in the analysis window: four chunks.
pub const BUFFER_SIZE: usize = CHUNK_SIZE * 4;

/// What a window holds after `chunk` arrives: as many of the oldest samples
/// leave as new ones come in, so the length stays.
pub open spec fn slid<T>(window: Seq<T>, chunk: Seq<T>) -> Seq<T> {
    (window + chunk).skip(chunk.len() as int)
}

/// A window over the newest samples of a stream, oldest first. It is full
/// from the start and keeps its length for good.
pub struct SampleWindow<T> {
    samples: VecDeque<T>,
}

impl<T> View for SampleWindow<T> {
    type V = Seq<T>;

    closed spec fn view(&self) -> Seq<T> {
        self.samples@
    }
}

impl<T: Copy> SampleWindow<T> {
    /// A window of `len` samples, each of them `silence`.
    pub fn new(len: usize, silence: T) -> (window: Self)
        ensures
            window@ == Seq::new(len as nat, |i: int| silence),
    {
        let mut samples: VecDeque<T> = VecDeque::new();
        let mut n: usize = 0;
        while n < len
            invariant
                n <= len,
                samples@ == Seq::new(n as nat, |i: int| silence),
            decreases len - n,
        {
            samples.push_back(silence);
            n += 1;
            assert(samples@ =~= Seq::new(n as nat, |i: int| silence));
        }
        SampleWindow { samples }
    }

    /// The number of samples in the window, which never changes.
    pub fn len(&self) -> (n: usize)
        ensures
            n == self@.len(),
    {
        self.samples.len()
    }

    /// Moves the window forward over `chunk`, one sample out for each sample
    /// in.
    pub fn push(&mut self, chunk: &Vec<T>)
        ensures
            final(self)@ == slid(old(self)@, chunk@),
            final(self)@.len() == old(self)@.len(),
    {
        let ghost before = self.samples@;
        let mut i: usize = 0;
        while i < chunk.len()
            invariant
                i <= chunk.len(),
                self.samples@ == slid(before, chunk@.take(i as int)),
            decreases chunk.len() - i,
        {
            let oldest = self.samples.pop_front();
            if oldest.is_some() {
                self.samples.push_back(chunk[i]);
            }
            i += 1;
            assert(self.samples@ =~= slid(before, chunk@.take(i as int)));
        }
        assert(chunk@.take(i as int) =~= chunk@);
    }

    /// The whole window as one run of samples, oldest first.
    pub fn samples(&self) -> (samples: Vec<T>)
        ensures
            samples@ == self@,
    {
        let mut samples: Vec<T> = Vec::new();
        let mut i: usize = 0;
        while i < self.samples.len()
            invariant
                i <= self.samples@.len(),
                samples@ == self.samples@.take(i as int),
            decreases self.samples@.len() - i,
        {
            samples.push(self.samples[i]);
            i += 1;
            assert(samples@ =~= self.samples@.take(i as int));
        }
        assert(self.samples@.take(i as int) =~= self.samples@);
        samples
    }
}

} // verus!
