//! The analysis loop as a machine: it decides what is to be done next, and
//! its driver does it and reports back.
//!
//! Polling for a stop request, waiting for a chunk and analysing a window are
//! the driver's work. The machine owns the window and keeps the order: a stop
//! poll before every wait, one analysis for every chunk, in the order of
//! arrival.

use crate::sound_device::Sound;
use crate::window::{slid, SampleWindow};
use vstd::prelude::*;

verus! {

/// What the loop is waiting for.
#[derive(Debug, Clone, Copy, PartialEq, Eq, Structural)]
pub enum Phase {
    /// The answer to a stop poll.
    Polling,
    /// The next chunk.
    Receiving,
    /// The end of the analysis of the window.
    Analysing,
    /// Nothing: the loop has ended.
    Finished,
}

/// What the driver reports.
#[derive(Debug, Clone, PartialEq)]
pub enum Event<T> {
    /// A stop poll was answered; `true` if a stop was requested.
    StopPolled(bool),
    /// A chunk arrived.
    Chunk(Sound<T>),
    /// The source of chunks has closed.
    Closed,
    /// The window was analysed and the result published.
    Analysed,
}

/// What the driver is to do next.
#[derive(Debug, Clone, PartialEq)]
pub enum Action<T> {
    /// Ask, without waiting, whether a stop was requested.
    PollStop,
    /// Wait for the next chunk.
    Receive,
    /// Analyse this window and publish the result.
    Analyse(Sound<T>),
    /// Leave the loop.
    Exit,
}

/// The analysis loop of one session.
pub struct AnalysisLoop<T> {
    window: SampleWindow<T>,
    phase: Phase,
}

impl<T: Copy> AnalysisLoop<T> {
    /// The samples in the window, oldest first.
    pub closed spec fn window(&self) -> Seq<T> {
        self.window@
    }

    /// What the loop is waiting for.
    pub closed spec fn phase(&self) -> Phase {
        self.phase
    }

    /// A loop over a window of `len` samples of `silence`, and its first
    /// action: a stop poll.
    pub fn new(len: usize, silence: T) -> (start: (Self, Action<T>))
        ensures
            start.0.window() == Seq::new(len as nat, |i: int| silence),
            start.0.phase() == Phase::Polling,
            start.1 is PollStop,
    {
        (
            AnalysisLoop { window: SampleWindow::new(len, silence), phase: Phase::Polling },
            Action::PollStop,
        )
    }

    /// What the loop is waiting for.
    pub fn current_phase(&self) -> (phase: Phase)
        ensures
            phase == self.phase(),
    {
        self.phase
    }

    /// Takes the driver's report and says what is to be done next.
    ///
    /// A stop poll that finds no request is followed by a wait for a chunk,
    /// one that finds a request ends the loop. A chunk moves the window
    /// forward and is followed by the analysis of the whole window at the
    /// chunk's sample rate; a closed source ends the loop. After an analysis
    /// comes the next stop poll. A report that the loop is not waiting for
    /// ends it, and an ended loop stays ended.
    pub fn step(&mut self, event: Event<T>) -> (action: Action<T>)
        ensures
            match (old(self).phase(), event) {
                (Phase::Polling, Event::StopPolled(false)) => {
                    &&& final(self).phase() == Phase::Receiving
                    &&& final(self).window() == old(self).window()
                    &&& action is Receive
                },
                (Phase::Receiving, Event::Chunk(chunk)) => {
                    &&& final(self).phase() == Phase::Analysing
                    &&& final(self).window() == slid(old(self).window(), chunk.samples@)
                    &&& action matches Action::Analyse(sound)
                        && sound.samples@ == final(self).window()
                        && sound.samplerate == chunk.samplerate
                },
                (Phase::Analysing, Event::Analysed) => {
                    &&& final(self).phase() == Phase::Polling
                    &&& final(self).window() == old(self).window()
                    &&& action is PollStop
                },
                _ => {
                    &&& final(self).phase() == Phase::Finished
                    &&& final(self).window() == old(self).window()
                    &&& action is Exit
                },
            },
            action is Receive ==> old(self).phase() == Phase::Polling && event matches Event::StopPolled(
                false,
            ),
            action is Analyse ==> old(self).phase() == Phase::Receiving && event is Chunk,
    {
        match (self.phase, event) {
            (Phase::Polling, Event::StopPolled(false)) => {
                self.phase = Phase::Receiving;
                Action::Receive
            },
            (Phase::Receiving, Event::Chunk(chunk)) => {
                self.window.push(&chunk.samples);
                self.phase = Phase::Analysing;
                Action::Analyse(Sound { samples: self.window.samples(), samplerate: chunk.samplerate })
            },
            (Phase::Analysing, Event::Analysed) => {
                self.phase = Phase::Polling;
                Action::PollStop
            },
            _ => {
                self.phase = Phase::Finished;
                Action::Exit
            },
        }
    }
}

} // verus!
