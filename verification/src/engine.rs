//! One `AudioEngine` the app owns: the metronome and the tuner side by side.
//! The streams themselves are opened and driven outside this crate, which
//! performs what the engine's answers ask for.

use vstd::prelude::*;

use crate::metronome::{Metronome, Sound};
use crate::note::{NoteReading, Scale, Transposition};
use crate::tempo::clamp;
use crate::metronome::BEATS_MAX;
use crate::tempo::{BPM_MAX, BPM_MIN};
use crate::tuner::{EnableEffect, PollStep, Tuner};

verus! {

/// What a user gesture unlocks: the streams to open now.
#[derive(Clone, Copy, PartialEq, Eq, Debug, Structural)]
pub struct GestureEffect {
    pub open_metronome: bool,
    pub open_tuner: bool,
}

pub struct AudioEngine {
    pub metronome: Metronome,
    pub tuner: Tuner,
}

impl AudioEngine {
    /// A fresh metronome and tuner.
    pub fn new() -> (e: AudioEngine)
        ensures
            e.metronome.control.bpm == 120,
            e.metronome.control.beats == 4,
            !e.metronome.control.running,
            e.metronome.sound == Sound::Electronic,
            e.metronome.beat_count == 0,
            !e.metronome.started,
            !e.tuner.enabled,
            e.tuner.a4_mhz == 440_000,
            e.tuner.scale == Scale::Chromatic,
            e.tuner.transpose == Transposition::Concert,
            e.tuner.reading is None,
            !e.tuner.started,
    {
        AudioEngine { metronome: Metronome::new(), tuner: Tuner::new() }
    }

    /// Push the metronome settings (clamped into range).
    pub fn metronome_set(&mut self, bpm: u32, beats: u32, running: bool)
        ensures
            final(self).metronome.control.bpm == clamp(bpm as int, BPM_MIN as int, BPM_MAX as int),
            final(self).metronome.control.beats == clamp(beats as int, 0, BEATS_MAX as int),
            final(self).metronome.control.running == running,
            final(self).metronome.sound == old(self).metronome.sound,
            final(self).metronome.beat_count == old(self).metronome.beat_count,
            final(self).metronome.started == old(self).metronome.started,
            final(self).tuner == old(self).tuner,
    {
        self.metronome.set(bpm, beats, running);
    }

    /// Set the metronome's click sound.
    pub fn metronome_set_sound(&mut self, sound: Sound)
        ensures
            final(self).metronome.sound == sound,
            final(self).metronome.control == old(self).metronome.control,
            final(self).metronome.beat_count == old(self).metronome.beat_count,
            final(self).metronome.started == old(self).metronome.started,
            final(self).tuner == old(self).tuner,
    {
        self.metronome.set_sound(sound);
    }

    /// The beat counter last reported by the audio thread.
    pub fn metronome_beat_count(&self) -> (c: u32)
        ensures
            c == self.metronome.beat_count,
    {
        self.metronome.beat_count()
    }

    /// Switch the tuner on or off; see [`Tuner::set_enabled`].
    pub fn tuner_set_enabled(&mut self, on: bool) -> (e: EnableEffect)
        ensures
            final(self).metronome == old(self).metronome,
            final(self).tuner.enabled == on,
            on == old(self).tuner.enabled ==> e.stream == crate::tuner::StreamCommand::Keep
                && !e.clear_samples && final(self).tuner.reading == old(self).tuner.reading,
            on && !old(self).tuner.enabled ==> e.stream == crate::tuner::StreamCommand::Play
                && !e.clear_samples && final(self).tuner.reading == old(self).tuner.reading,
            !on && old(self).tuner.enabled ==> e.stream == crate::tuner::StreamCommand::Pause
                && e.clear_samples && final(self).tuner.reading is None,
            final(self).tuner.a4_mhz == old(self).tuner.a4_mhz,
            final(self).tuner.scale == old(self).tuner.scale,
            final(self).tuner.transpose == old(self).tuner.transpose,
            final(self).tuner.started == old(self).tuner.started,
    {
        self.tuner.set_enabled(on)
    }

    /// Set the tuner's A4 reference, in millihertz.
    pub fn tuner_set_a4(&mut self, a4_mhz: u32)
        ensures
            final(self).tuner.a4_mhz == a4_mhz,
            final(self).tuner.enabled == old(self).tuner.enabled,
            final(self).tuner.scale == old(self).tuner.scale,
            final(self).tuner.transpose == old(self).tuner.transpose,
            final(self).tuner.reading == old(self).tuner.reading,
            final(self).tuner.started == old(self).tuner.started,
            final(self).metronome == old(self).metronome,
    {
        self.tuner.set_a4(a4_mhz);
    }

    /// Set the tuner's scale.
    pub fn tuner_set_scale(&mut self, scale: Scale)
        ensures
            final(self).tuner.scale == scale,
            final(self).tuner.enabled == old(self).tuner.enabled,
            final(self).tuner.a4_mhz == old(self).tuner.a4_mhz,
            final(self).tuner.transpose == old(self).tuner.transpose,
            final(self).tuner.reading == old(self).tuner.reading,
            final(self).tuner.started == old(self).tuner.started,
            final(self).metronome == old(self).metronome,
    {
        self.tuner.set_scale(scale);
    }

    /// Set the tuner's transposition.
    pub fn tuner_set_transpose(&mut self, transpose: Transposition)
        ensures
            final(self).tuner.transpose == transpose,
            final(self).tuner.enabled == old(self).tuner.enabled,
            final(self).tuner.a4_mhz == old(self).tuner.a4_mhz,
            final(self).tuner.scale == old(self).tuner.scale,
            final(self).tuner.reading == old(self).tuner.reading,
            final(self).tuner.started == old(self).tuner.started,
            final(self).metronome == old(self).metronome,
    {
        self.tuner.set_transpose(transpose);
    }

    /// The tuner's latest reading.
    pub fn tuner_reading(&self) -> (r: Option<NoteReading>)
        ensures
            r == self.tuner.reading,
    {
        self.tuner.reading()
    }

    /// Advance the polling-based work (the tuner). Called once per frame.
    pub fn poll(&mut self) -> (step: PollStep)
        ensures
            final(self).metronome == old(self).metronome,
            !old(self).tuner.enabled ==> step == PollStep::Idle && final(self).tuner.reading is None
                && final(self).tuner.started == old(self).tuner.started,
            old(self).tuner.enabled ==> step == (PollStep::Listen {
                open_stream: !old(self).tuner.started,
            }) && final(self).tuner.started && final(self).tuner.reading == old(
                self,
            ).tuner.reading,
            final(self).tuner.enabled == old(self).tuner.enabled,
            final(self).tuner.a4_mhz == old(self).tuner.a4_mhz,
            final(self).tuner.scale == old(self).tuner.scale,
            final(self).tuner.transpose == old(self).tuner.transpose,
    {
        self.tuner.poll()
    }

    /// Unlock / resume audio (required on web from within a user gesture):
    /// the metronome stream is opened once, the tuner's once while it is on.
    pub fn on_user_gesture(&mut self) -> (g: GestureEffect)
        ensures
            g.open_metronome == !old(self).metronome.started,
            g.open_tuner == (old(self).tuner.enabled && !old(self).tuner.started),
            final(self).metronome.started,
            final(self).metronome.control == old(self).metronome.control,
            final(self).metronome.sound == old(self).metronome.sound,
            final(self).metronome.beat_count == old(self).metronome.beat_count,
            final(self).tuner.started == (old(self).tuner.started || old(self).tuner.enabled),
            final(self).tuner.enabled == old(self).tuner.enabled,
            final(self).tuner.a4_mhz == old(self).tuner.a4_mhz,
            final(self).tuner.scale == old(self).tuner.scale,
            final(self).tuner.transpose == old(self).tuner.transpose,
            final(self).tuner.reading == old(self).tuner.reading,
    {
        let open_metronome = self.metronome.ensure_started();
        let open_tuner = self.tuner.on_user_gesture();
        GestureEffect { open_metronome, open_tuner }
    }
}

} // verus!
