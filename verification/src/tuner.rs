//! Tuner decisions. The microphone stream, the sample window and the pitch
//! detector live outside this crate; the [`Tuner`] here decides when to open,
//! play and pause the stream, when to listen, and turns each detected pitch
//! into a reading. [`MicSession`] is the web backend's bookkeeping for its
//! asynchronous microphone requests.

use vstd::prelude::*;

use crate::note::{
    lemma_chromatic_is_sharp_only, lemma_guitar_is_natural_only, spec_from_pitch, Accidental,
    NoteReading, Scale, Transposition,
};

verus! {

/// A4 reference at start-up, in millihertz.
pub const A4_DEFAULT_MHZ: u32 = 440_000;

/// What to do with an existing microphone stream.
#[derive(Clone, Copy, PartialEq, Eq, Debug, Structural)]
pub enum StreamCommand {
    /// Leave it as it is.
    Keep,
    /// Resume capture.
    Play,
    /// Pause capture (frees the device and the "mic in use" indicator).
    Pause,
}

/// The effects of switching the tuner on or off.
#[derive(Clone, Copy, PartialEq, Eq, Debug, Structural)]
pub struct EnableEffect {
    /// What to do with the stream, if one exists.
    pub stream: StreamCommand,
    /// Drop the buffered samples, so a later re-enable starts from fresh audio.
    pub clear_samples: bool,
}

/// What a frame's poll asks of the audio side.
#[derive(Clone, Copy, PartialEq, Eq, Debug, Structural)]
pub enum PollStep {
    /// The tuner is off: nothing to do.
    Idle,
    /// Drain the new samples and detect a pitch; first open the stream when
    /// `open_stream` is set.
    Listen { open_stream: bool },
}

/// A detected pitch: the frequency in millihertz, and the concert pitch in
/// millicents above the tuner's A4 reference.
#[derive(Clone, Copy, PartialEq, Eq, Debug, Structural)]
pub struct Detection {
    pub freq_mhz: u64,
    pub offset: i32,
}

/// The reading a detection gives on a scale and transposition.
pub open spec fn spec_reading(
    det: Option<Detection>,
    scale: Scale,
    transpose: Transposition,
) -> Option<NoteReading> {
    match det {
        Some(d) => Some(spec_from_pitch(d.freq_mhz, d.offset as int, scale, transpose)),
        None => None,
    }
}

/// The tuner's state: on or off, its A4 reference (millihertz), scale and
/// transposition, the latest reading, and whether the stream was asked for.
pub struct Tuner {
    pub enabled: bool,
    pub a4_mhz: u32,
    pub scale: Scale,
    pub transpose: Transposition,
    pub reading: Option<NoteReading>,
    pub started: bool,
}

impl Tuner {
    /// Off, A4 = 440 Hz, chromatic, concert pitch, no reading, no stream.
    pub fn new() -> (t: Tuner)
        ensures
            !t.enabled,
            t.a4_mhz == A4_DEFAULT_MHZ,
            t.scale == Scale::Chromatic,
            t.transpose == Transposition::Concert,
            t.reading is None,
            !t.started,
    {
        Tuner {
            enabled: false,
            a4_mhz: A4_DEFAULT_MHZ,
            scale: Scale::Chromatic,
            transpose: Transposition::Concert,
            reading: None,
            started: false,
        }
    }

    /// Switch the tuner on or off. Called every frame with the same value;
    /// only a real transition acts: switching off drops the reading and the
    /// buffered samples and pauses capture, switching on resumes it.
    pub fn set_enabled(&mut self, on: bool) -> (e: EnableEffect)
        ensures
            final(self).enabled == on,
            on == old(self).enabled ==> e == (EnableEffect {
                stream: StreamCommand::Keep,
                clear_samples: false,
            }) && final(self).reading == old(self).reading,
            on && !old(self).enabled ==> e == (EnableEffect {
                stream: StreamCommand::Play,
                clear_samples: false,
            }) && final(self).reading == old(self).reading,
            !on && old(self).enabled ==> e == (EnableEffect {
                stream: StreamCommand::Pause,
                clear_samples: true,
            }) && final(self).reading is None,
            final(self).a4_mhz == old(self).a4_mhz,
            final(self).scale == old(self).scale,
            final(self).transpose == old(self).transpose,
            final(self).started == old(self).started,
    {
        if on == self.enabled {
            return EnableEffect { stream: StreamCommand::Keep, clear_samples: false };
        }
        self.enabled = on;
        if on {
            EnableEffect { stream: StreamCommand::Play, clear_samples: false }
        } else {
            self.reading = None;
            EnableEffect { stream: StreamCommand::Pause, clear_samples: true }
        }
    }

    /// Set the A4 reference, in millihertz.
    pub fn set_a4(&mut self, a4_mhz: u32)
        ensures
            final(self).a4_mhz == a4_mhz,
            final(self).enabled == old(self).enabled,
            final(self).scale == old(self).scale,
            final(self).transpose == old(self).transpose,
            final(self).reading == old(self).reading,
            final(self).started == old(self).started,
    {
        self.a4_mhz = a4_mhz;
    }

    /// Set the scale readings snap to.
    pub fn set_scale(&mut self, scale: Scale)
        ensures
            final(self).scale == scale,
            final(self).enabled == old(self).enabled,
            final(self).a4_mhz == old(self).a4_mhz,
            final(self).transpose == old(self).transpose,
            final(self).reading == old(self).reading,
            final(self).started == old(self).started,
    {
        self.scale = scale;
    }

    /// Set the instrument transposition.
    pub fn set_transpose(&mut self, transpose: Transposition)
        ensures
            final(self).transpose == transpose,
            final(self).enabled == old(self).enabled,
            final(self).a4_mhz == old(self).a4_mhz,
            final(self).scale == old(self).scale,
            final(self).reading == old(self).reading,
            final(self).started == old(self).started,
    {
        self.transpose = transpose;
    }

    /// The latest reading, if a note is currently detected.
    pub fn reading(&self) -> (r: Option<NoteReading>)
        ensures
            r == self.reading,
    {
        self.reading
    }

    /// Whether to open the stream now: once, and only while enabled.
    fn ensure_started(&mut self) -> (open_now: bool)
        ensures
            open_now == !old(self).started,
            final(self).started,
            final(self).enabled == old(self).enabled,
            final(self).a4_mhz == old(self).a4_mhz,
            final(self).scale == old(self).scale,
            final(self).transpose == old(self).transpose,
            final(self).reading == old(self).reading,
    {
        if self.started {
            return false;
        }
        self.started = true;
        true
    }

    /// A user gesture (needed to unlock audio input): open the stream now if
    /// the tuner is on and it was never asked for.
    pub fn on_user_gesture(&mut self) -> (open_now: bool)
        ensures
            open_now == (old(self).enabled && !old(self).started),
            final(self).started == (old(self).started || old(self).enabled),
            final(self).enabled == old(self).enabled,
            final(self).a4_mhz == old(self).a4_mhz,
            final(self).scale == old(self).scale,
            final(self).transpose == old(self).transpose,
            final(self).reading == old(self).reading,
    {
        if self.enabled {
            self.ensure_started()
        } else {
            false
        }
    }

    /// Once per frame: while off, drop the reading and do nothing; while on,
    /// listen, opening the stream first if it was never asked for.
    pub fn poll(&mut self) -> (step: PollStep)
        ensures
            !old(self).enabled ==> step == PollStep::Idle && final(self).reading is None
                && final(self).started == old(self).started,
            old(self).enabled ==> step == (PollStep::Listen { open_stream: !old(self).started })
                && final(self).started && final(self).reading == old(self).reading,
            final(self).enabled == old(self).enabled,
            final(self).a4_mhz == old(self).a4_mhz,
            final(self).scale == old(self).scale,
            final(self).transpose == old(self).transpose,
    {
        if !self.enabled {
            self.reading = None;
            return PollStep::Idle;
        }
        let open_stream = self.ensure_started();
        PollStep::Listen { open_stream }
    }

    /// Take the outcome of a detection: the reading snaps the pitch to the
    /// tuner's scale and transposition, or is cleared when nothing was heard.
    pub fn record_detection(&mut self, det: Option<Detection>)
        ensures
            final(self).reading == spec_reading(det, old(self).scale, old(self).transpose),
            det matches Some(d) ==> final(self).reading == Some(
                spec_from_pitch(d.freq_mhz, d.offset as int, old(self).scale, old(self).transpose),
            ),
            det is None ==> final(self).reading is None,
            final(self).enabled == old(self).enabled,
            final(self).a4_mhz == old(self).a4_mhz,
            final(self).scale == old(self).scale,
            final(self).transpose == old(self).transpose,
            final(self).started == old(self).started,
    {
        self.reading = match det {
            Some(d) => Some(NoteReading::from_pitch(d.freq_mhz, d.offset, self.scale, self.transpose)),
            None => None,
        };
    }
}

/// A detection is read on the tuner's own scale and transposition, whatever
/// they are: the reading is the snapped pitch on exactly that scale and
/// transposition, so a guitar tuner reads only open-string naturals and a
/// chromatic one only naturals and sharps; nothing heard gives no reading.
pub proof fn lemma_reading_follows_tuner_settings(
    det: Option<Detection>,
    scale: Scale,
    transpose: Transposition,
)
    ensures
        det matches Some(d) ==> spec_reading(det, scale, transpose) == Some(
            spec_from_pitch(d.freq_mhz, d.offset as int, scale, transpose),
        ),
        det is None ==> spec_reading(det, scale, transpose) is None,
        det is Some && scale == Scale::Guitar ==> spec_reading(det, scale, transpose).unwrap().note.accidental is None,
        det is Some && scale == Scale::Chromatic ==> ({
            let a = spec_reading(det, scale, transpose).unwrap().note.accidental;
            a == None::<Accidental> || a == Some(Accidental::Sharp)
        }),
{
    if let Some(d) = det {
        lemma_guitar_is_natural_only(d.freq_mhz, d.offset as int, transpose);
        lemma_chromatic_is_sharp_only(d.freq_mhz, d.offset as int, transpose);
    }
}

/// Bookkeeping of the web backend's microphone requests. Each acquisition
/// and each release bumps the generation; an asynchronous request keeps the
/// stream it receives only if the generation it started in is still current,
/// so a stream arriving after an off / re-toggle is stopped, not leaked.
#[derive(Clone, Copy, PartialEq, Eq, Debug, Structural)]
pub struct MicSession {
    pub generation: u64,
    /// Acquisition in flight or established, so repeated gestures don't fire
    /// duplicate requests.
    pub requested: bool,
}

impl MicSession {
    /// No request yet.
    pub fn new() -> (s: MicSession)
        ensures
            s == (MicSession { generation: 0, requested: false }),
    {
        MicSession { generation: 0, requested: false }
    }

    /// Start an acquisition unless one is in flight or established. Returns
    /// the generation the request belongs to.
    pub fn begin_request(&mut self) -> (token: Option<u64>)
        ensures
            old(self).requested ==> token is None && *final(self) == *old(self),
            !old(self).requested ==> final(self).requested && final(self).generation == (
            old(self).generation + 1) % 0x1_0000_0000_0000_0000 && token == Some(
                final(self).generation,
            ),
    {
        if self.requested {
            return None;
        }
        self.requested = true;
        self.generation = self.generation.wrapping_add(1);
        Some(self.generation)
    }

    /// The acquisition could not be started: allow the next gesture to retry.
    pub fn request_failed(&mut self)
        ensures
            !final(self).requested,
            final(self).generation == old(self).generation,
    {
        self.requested = false;
    }

    /// Stop capture: invalidate any request in flight and allow a new one.
    pub fn release(&mut self)
        ensures
            !final(self).requested,
            final(self).generation == (old(self).generation + 1) % 0x1_0000_0000_0000_0000,
    {
        self.generation = self.generation.wrapping_add(1);
        self.requested = false;
    }

    /// Whether a stream obtained by the request `token` may be kept.
    pub fn accepts(&self, token: u64) -> (keep: bool)
        ensures
            keep == (token == self.generation),
    {
        token == self.generation
    }
}

/// A release always disowns the request that was current before it: a stream
/// that arrives for that request afterwards is refused.
pub proof fn lemma_release_disowns_pending_request(before: MicSession, after: MicSession)
    requires
        after.generation == (before.generation + 1) % 0x1_0000_0000_0000_0000,
    ensures
        after.generation != before.generation,
{
}

} // verus!
