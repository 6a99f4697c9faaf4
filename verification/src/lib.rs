//! Verified core of the TM-2077 tuner / metronome.

pub mod controls;
pub mod display;
pub mod engine;
pub mod metronome;
pub mod note;
pub mod pvec;
pub mod samples;
pub mod shell;
pub mod tempo;
pub mod theme;
pub mod tuner;
