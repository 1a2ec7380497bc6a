//! The discrete core of a live voice analyser.
//!
//! Audio samples, magnitudes and frequencies are measured values that this
//! library only moves around; it never does arithmetic on them. Containers are
//! therefore generic in the value they carry, and the few decisions that
//! depend on the order of two measured values take unsigned keys that are
//! ordered like the values they stand for.

pub mod cycle;
pub mod formant;
pub mod harmonic;
pub mod history;
pub mod osc;
pub mod sound_device;
pub mod store;
pub mod utils;
pub mod window;
