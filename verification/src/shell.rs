//! Top-level application state. Models the Korg TM-60: tuner and metronome run
//! independently and are shown at the same time, driven by the audio engine.
//! The window, the input devices and the audio streams are outside this crate;
//! the state here decides what every control, key press and frame does.

use vstd::prelude::*;

use crate::engine::{AudioEngine, GestureEffect};
use crate::metronome::{Sound, BEATS_MAX, BEATS_MIN};
use crate::note::{Accidentals, NoteReading, Scale, Transposition};
use crate::pvec::{stamp_items, stamps_clone, stamps_last, stamps_new, stamps_push_back, PVector};
use crate::tempo::{
    clamp, is_graduation, is_next_graduation, is_prev_graduation, keep_last, last_n,
    next_graduation, prev_graduation, spec_tapped_bpm, tapped_bpm, BPM_MAX, BPM_MIN,
};
use crate::theme::Theme;
use crate::tuner::{EnableEffect, PollStep};

verus! {

/// A4 calibration bounds (millihertz) for the CALIB rocker.
pub const A4_MIN_MHZ: u32 = 410_000;

/// A4 calibration bounds (millihertz) for the CALIB rocker.
pub const A4_MAX_MHZ: u32 = 480_000;

/// One step of the CALIB rocker: 1 Hz.
pub const A4_STEP_MHZ: u32 = 1_000;

/// How many recent taps TAP TEMPO averages into a bpm.
pub const TAP_COUNT: usize = 4;

/// A tap more than this long (microseconds) after the previous one starts a
/// new tap sequence.
pub const TAP_RESTART_MICROS: u64 = 2_000_000;

pub struct TunerState {
    /// A4 reference frequency (calibration) in millihertz, typically 440 Hz.
    pub a4_mhz: u32,
    /// Which scale the tuner snaps readings to.
    pub scale: Scale,
    /// How the tuner spells the chromatic black keys (sharps / flats / mixed).
    pub accidentals: Accidentals,
    /// Instrument transposition (shows the written note).
    pub transpose: Transposition,
    /// Latest pitch reading, if a note is currently detected.
    pub reading: Option<NoteReading>,
}

impl TunerState {
    /// CALIB ▲: one hertz up, kept within the calibration bounds.
    pub fn calib_up(&mut self)
        ensures
            final(self).a4_mhz == clamp(old(self).a4_mhz + A4_STEP_MHZ, A4_MIN_MHZ as int, A4_MAX_MHZ as int),
            final(self).scale == old(self).scale,
            final(self).accidentals == old(self).accidentals,
            final(self).transpose == old(self).transpose,
            final(self).reading == old(self).reading,
    {
        let up: u64 = self.a4_mhz as u64 + A4_STEP_MHZ as u64;
        self.a4_mhz = if up < A4_MIN_MHZ as u64 {
            A4_MIN_MHZ
        } else if up > A4_MAX_MHZ as u64 {
            A4_MAX_MHZ
        } else {
            up as u32
        };
    }

    /// CALIB ▼: one hertz down, kept within the calibration bounds.
    pub fn calib_down(&mut self)
        ensures
            final(self).a4_mhz == clamp(old(self).a4_mhz - A4_STEP_MHZ, A4_MIN_MHZ as int, A4_MAX_MHZ as int),
            final(self).scale == old(self).scale,
            final(self).accidentals == old(self).accidentals,
            final(self).transpose == old(self).transpose,
            final(self).reading == old(self).reading,
    {
        self.a4_mhz = if self.a4_mhz < A4_MIN_MHZ + A4_STEP_MHZ {
            A4_MIN_MHZ
        } else if self.a4_mhz - A4_STEP_MHZ > A4_MAX_MHZ {
            A4_MAX_MHZ
        } else {
            self.a4_mhz - A4_STEP_MHZ
        };
    }
}

pub struct MetronomeState {
    pub bpm: u32,
    pub beats_per_bar: u32,
    pub running: bool,
    /// Monotonic beat counter from the audio engine; the UI watches it change.
    pub beat_count: u32,
    /// TEMPO up/down steps through old-school graduations instead of by 1 bpm.
    pub graduated: bool,
    /// Which click sound the metronome plays.
    pub sound: Sound,
}

/// The tempo after one TEMPO ▲ press.
pub open spec fn spec_tempo_up(bpm: u32, graduated: bool, r: u32) -> bool {
    if graduated {
        is_next_graduation(bpm, r)
    } else {
        r == if bpm >= BPM_MAX {
            BPM_MAX as int
        } else {
            bpm + 1
        }
    }
}

/// The tempo after one TEMPO ▼ press.
pub open spec fn spec_tempo_down(bpm: u32, graduated: bool, r: u32) -> bool {
    if graduated {
        is_prev_graduation(bpm, r)
    } else {
        r == if bpm <= BPM_MIN + 1 {
            BPM_MIN as int
        } else {
            bpm - 1
        }
    }
}

impl MetronomeState {
    /// TEMPO ▲: the next graduation in graduated mode, else one bpm faster,
    /// never above `BPM_MAX`.
    pub fn tempo_up(&mut self)
        ensures
            spec_tempo_up(old(self).bpm, old(self).graduated, final(self).bpm),
            final(self).beats_per_bar == old(self).beats_per_bar,
            final(self).running == old(self).running,
            final(self).beat_count == old(self).beat_count,
            final(self).graduated == old(self).graduated,
            final(self).sound == old(self).sound,
    {
        self.bpm = if self.graduated {
            next_graduation(self.bpm)
        } else if self.bpm >= BPM_MAX {
            BPM_MAX
        } else {
            self.bpm + 1
        };
    }

    /// TEMPO ▼: the previous graduation in graduated mode, else one bpm
    /// slower, never below `BPM_MIN`.
    pub fn tempo_down(&mut self)
        ensures
            spec_tempo_down(old(self).bpm, old(self).graduated, final(self).bpm),
            final(self).beats_per_bar == old(self).beats_per_bar,
            final(self).running == old(self).running,
            final(self).beat_count == old(self).beat_count,
            final(self).graduated == old(self).graduated,
            final(self).sound == old(self).sound,
    {
        self.bpm = if self.graduated {
            prev_graduation(self.bpm)
        } else if self.bpm <= BPM_MIN + 1 {
            BPM_MIN
        } else {
            self.bpm - 1
        };
    }

    /// BEAT ▲: one more beat per bar, at most `BEATS_MAX`.
    pub fn beats_up(&mut self)
        ensures
            final(self).beats_per_bar == if old(self).beats_per_bar >= BEATS_MAX {
                BEATS_MAX as int
            } else {
                old(self).beats_per_bar + 1
            },
            final(self).bpm == old(self).bpm,
            final(self).running == old(self).running,
            final(self).beat_count == old(self).beat_count,
            final(self).graduated == old(self).graduated,
            final(self).sound == old(self).sound,
    {
        self.beats_per_bar = if self.beats_per_bar >= BEATS_MAX {
            BEATS_MAX
        } else {
            self.beats_per_bar + 1
        };
    }

    /// BEAT ▼: one beat per bar fewer, down to `BEATS_MIN` (0: no accented
    /// downbeat, just a steady uniform tick).
    pub fn beats_down(&mut self)
        ensures
            final(self).beats_per_bar == if old(self).beats_per_bar <= BEATS_MIN {
                BEATS_MIN as int
            } else {
                old(self).beats_per_bar - 1
            },
            final(self).bpm == old(self).bpm,
            final(self).running == old(self).running,
            final(self).beat_count == old(self).beat_count,
            final(self).graduated == old(self).graduated,
            final(self).sound == old(self).sound,
    {
        self.beats_per_bar = if self.beats_per_bar <= BEATS_MIN {
            BEATS_MIN
        } else {
            self.beats_per_bar - 1
        };
    }
}

/// The TEMPO rocker keeps the tempo within `BPM_MIN..=BPM_MAX`.
pub proof fn lemma_tempo_steps_stay_in_range(bpm: u32, graduated: bool, up: u32, down: u32)
    requires
        BPM_MIN <= bpm <= BPM_MAX,
        spec_tempo_up(bpm, graduated, up),
        spec_tempo_down(bpm, graduated, down),
    ensures
        BPM_MIN <= up <= BPM_MAX,
        BPM_MIN <= down <= BPM_MAX,
{
    if graduated {
        crate::tempo::lemma_graduations_increase();
        let g = crate::tempo::graduation_seq();
        assert forall|i: int| 0 <= i < g.len() implies 40 <= #[trigger] g[i] <= 208 by {
            assert(g[0] <= g[i] || i == 0);
            assert(g[i] <= g[38] || i == 38);
        }
        if is_graduation(up) {
            let k = choose|k: int| 0 <= k < g.len() && g[k] == up;
        }
        if is_graduation(down) {
            let k = choose|k: int| 0 <= k < g.len() && g[k] == down;
        }
    }
}

/// Persisted user settings. The tuner's on/off state is deliberately not
/// persisted: it's a live transport toggle, not a preference, and can't take
/// effect until a user gesture unlocks the mic, so the tuner always boots off.
#[derive(Clone, Copy, PartialEq, Eq, Debug)]
pub struct Settings {
    pub bpm: u32,
    pub beats_per_bar: u32,
    /// A4 reference in millihertz; `None` when the stored value is not a number.
    pub a4_mhz: Option<i64>,
    pub theme: Theme,
    pub scale: Scale,
    pub accidentals: Accidentals,
    pub transpose: Transposition,
    pub tempo_graduated: bool,
    pub sound: Sound,
    /// Which of `(tuner, metronome)` were last on — what the space bar should
    /// bring back. A preference (persisted), not the live transport state.
    pub last_on: (bool, bool),
}

/// Seed for `last_on`: metronome only, so a fresh install's first space press
/// is a plain metronome play/pause.
pub fn default_last_on() -> (on: (bool, bool))
    ensures
        on == (false, true),
{
    (false, true)
}

impl Default for Settings {
    fn default() -> (s: Settings)
        ensures
            s == (Settings {
                bpm: 120,
                beats_per_bar: 4,
                a4_mhz: Some(440_000),
                theme: Theme::Dark,
                scale: Scale::Chromatic,
                accidentals: Accidentals::Sharps,
                transpose: Transposition::Concert,
                tempo_graduated: false,
                sound: Sound::Electronic,
                last_on: (false, true),
            }),
    {
        Settings {
            bpm: 120,
            beats_per_bar: 4,
            a4_mhz: Some(440_000),
            theme: Theme::Dark,
            scale: Scale::Chromatic,
            accidentals: Accidentals::Sharps,
            transpose: Transposition::Concert,
            tempo_graduated: false,
            sound: Sound::Electronic,
            last_on: default_last_on(),
        }
    }
}

/// What the end of a frame asks of the audio side.
#[derive(Clone, Copy, PartialEq, Eq, Debug, Structural)]
pub struct FrameEffects {
    /// What switching the tuner on or off asks for.
    pub enable: EnableEffect,
    /// The streams a user gesture unlocks.
    pub gesture: GestureEffect,
}

/// The on-set the space bar leaves: if either instrument is on, both stop; if
/// both are off, the remembered on-set comes back.
pub open spec fn space_transition(tuner_on: bool, running: bool, last_on: (bool, bool)) -> (
    bool,
    bool,
) {
    if tuner_on || running {
        (false, false)
    } else {
        last_on
    }
}

/// The A4 reference restored from a saved value: clamped into the calibration
/// bounds, 440 Hz when the saved value is not a number.
pub open spec fn restored_a4(saved: Option<i64>) -> u32 {
    match saved {
        Some(v) => clamp(v as int, A4_MIN_MHZ as int, A4_MAX_MHZ as int) as u32,
        None => 440_000,
    }
}

pub struct Tm2077App {
    /// Whether the tuner is listening (the TUNER ON toggle).
    pub tuner_on: bool,
    pub tuner: TunerState,
    pub metronome: MetronomeState,
    pub audio: AudioEngine,
    /// Recent TAP TEMPO timestamps (microseconds), as a persistent vector.
    pub tap_times: PVector<u64>,
    /// Light/dark device theme.
    pub theme: Theme,
    /// Whether the settings popup is open.
    pub settings_open: bool,
    /// The last non-empty on-set — which of `(tuner, metronome)` were running —
    /// so the space bar can restore it after stopping both.
    pub last_on: (bool, bool),
}

impl Tm2077App {
    /// The app as the saved settings leave it: everything stopped, values
    /// clamped into range (an old or hand-edited save must not seed an
    /// out-of-range value), and a both-off on-set replaced by the default.
    pub fn new(saved: &Settings) -> (app: Tm2077App)
        ensures
            !app.tuner_on,
            app.tuner.a4_mhz == restored_a4(saved.a4_mhz),
            app.tuner.scale == saved.scale,
            app.tuner.accidentals == saved.accidentals,
            app.tuner.transpose == saved.transpose,
            app.tuner.reading is None,
            app.metronome.bpm == clamp(saved.bpm as int, BPM_MIN as int, BPM_MAX as int),
            app.metronome.beats_per_bar == clamp(
                saved.beats_per_bar as int,
                BEATS_MIN as int,
                BEATS_MAX as int,
            ),
            !app.metronome.running,
            app.metronome.beat_count == 0,
            app.metronome.graduated == saved.tempo_graduated,
            app.metronome.sound == saved.sound,
            app.audio.metronome.control.bpm == 120,
            app.audio.metronome.control.beats == 4,
            !app.audio.metronome.control.running,
            !app.audio.metronome.started,
            app.audio.metronome.beat_count == 0,
            app.audio.metronome.sound == Sound::Electronic,
            !app.audio.tuner.enabled,
            app.audio.tuner.a4_mhz == 440_000,
            app.audio.tuner.scale == Scale::Chromatic,
            app.audio.tuner.transpose == Transposition::Concert,
            !app.audio.tuner.started,
            app.audio.tuner.reading is None,
            stamp_items(app.tap_times) == Seq::<u64>::empty(),
            app.theme == saved.theme,
            !app.settings_open,
            app.last_on == if saved.last_on == (false, false) {
                (false, true)
            } else {
                saved.last_on
            },
    {
        let a4_mhz = match saved.a4_mhz {
            Some(v) => {
                if v < A4_MIN_MHZ as i64 {
                    A4_MIN_MHZ
                } else if v > A4_MAX_MHZ as i64 {
                    A4_MAX_MHZ
                } else {
                    v as u32
                }
            },
            None => 440_000,
        };
        let bpm = if saved.bpm < BPM_MIN {
            BPM_MIN
        } else if saved.bpm > BPM_MAX {
            BPM_MAX
        } else {
            saved.bpm
        };
        let beats = if saved.beats_per_bar > BEATS_MAX {
            BEATS_MAX
        } else {
            saved.beats_per_bar
        };
        let last_on = match saved.last_on {
            (false, false) => default_last_on(),
            on => on,
        };
        Tm2077App {
            tuner_on: false,
            tuner: TunerState {
                a4_mhz,
                scale: saved.scale,
                accidentals: saved.accidentals,
                transpose: saved.transpose,
                reading: None,
            },
            metronome: MetronomeState {
                bpm,
                beats_per_bar: beats,
                running: false,
                beat_count: 0,
                graduated: saved.tempo_graduated,
                sound: saved.sound,
            },
            audio: AudioEngine::new(),
            tap_times: stamps_new(),
            theme: saved.theme,
            settings_open: false,
            last_on,
        }
    }

    /// The settings to persist.
    pub fn settings(&self) -> (s: Settings)
        ensures
            s == (Settings {
                bpm: self.metronome.bpm,
                beats_per_bar: self.metronome.beats_per_bar,
                a4_mhz: Some(self.tuner.a4_mhz as i64),
                theme: self.theme,
                scale: self.tuner.scale,
                accidentals: self.tuner.accidentals,
                transpose: self.tuner.transpose,
                tempo_graduated: self.metronome.graduated,
                sound: self.metronome.sound,
                last_on: self.last_on,
            }),
    {
        Settings {
            bpm: self.metronome.bpm,
            beats_per_bar: self.metronome.beats_per_bar,
            a4_mhz: Some(self.tuner.a4_mhz as i64),
            theme: self.theme,
            scale: self.tuner.scale,
            accidentals: self.tuner.accidentals,
            transpose: self.tuner.transpose,
            tempo_graduated: self.metronome.graduated,
            sound: self.metronome.sound,
            last_on: self.last_on,
        }
    }

    /// The space bar: global play/pause across both instruments. If either is
    /// on, stop both; if both are off, restore the remembered on-set.
    pub fn press_space(&mut self)
        ensures
            (final(self).tuner_on, final(self).metronome.running) == space_transition(
                old(self).tuner_on,
                old(self).metronome.running,
                old(self).last_on,
            ),
            final(self).last_on == old(self).last_on,
            final(self).tuner == old(self).tuner,
            final(self).metronome.bpm == old(self).metronome.bpm,
            final(self).metronome.beats_per_bar == old(self).metronome.beats_per_bar,
            final(self).metronome.beat_count == old(self).metronome.beat_count,
            final(self).metronome.graduated == old(self).metronome.graduated,
            final(self).metronome.sound == old(self).metronome.sound,
            final(self).audio == old(self).audio,
            final(self).tap_times == old(self).tap_times,
            final(self).theme == old(self).theme,
            final(self).settings_open == old(self).settings_open,
    {
        if self.tuner_on || self.metronome.running {
            self.tuner_on = false;
            self.metronome.running = false;
        } else {
            self.tuner_on = self.last_on.0;
            self.metronome.running = self.last_on.1;
        }
    }

    /// Closing the settings popup: the close cross or Escape closes it, and so
    /// does a click outside it, but not on the frame it opened (`was_open`
    /// false), so the opening click doesn't also dismiss it.
    pub fn close_settings(
        &mut self,
        close_clicked: bool,
        escape: bool,
        was_open: bool,
        clicked_outside: bool,
    )
        ensures
            final(self).settings_open == (old(self).settings_open && !close_clicked && !escape
                && !(was_open && clicked_outside)),
            final(self).tuner_on == old(self).tuner_on,
            final(self).tuner == old(self).tuner,
            final(self).metronome == old(self).metronome,
            final(self).audio == old(self).audio,
            final(self).tap_times == old(self).tap_times,
            final(self).theme == old(self).theme,
            final(self).last_on == old(self).last_on,
    {
        if close_clicked || escape {
            self.settings_open = false;
        }
        if was_open && clicked_outside {
            self.settings_open = false;
        }
    }

    /// Whether to keep repainting: while something animates (needle) or a
    /// pointer is held (so the rockers' press-and-hold auto-repeat keeps
    /// ticking).
    pub fn needs_repaint(&self, pointer_down: bool) -> (b: bool)
        ensures
            b == (self.metronome.running || self.tuner_on || pointer_down),
    {
        self.metronome.running || self.tuner_on || pointer_down
    }

    /// Remember the current on-set whenever at least one instrument is on, so a
    /// later space press can restore it. Both-off is never recorded.
    pub fn record_on_set(&mut self)
        ensures
            final(self).last_on == if old(self).tuner_on || old(self).metronome.running {
                (old(self).tuner_on, old(self).metronome.running)
            } else {
                old(self).last_on
            },
            final(self).tuner_on == old(self).tuner_on,
            final(self).tuner == old(self).tuner,
            final(self).metronome == old(self).metronome,
            final(self).audio == old(self).audio,
            final(self).tap_times == old(self).tap_times,
            final(self).theme == old(self).theme,
            final(self).settings_open == old(self).settings_open,
    {
        if self.tuner_on || self.metronome.running {
            self.last_on = (self.tuner_on, self.metronome.running);
        }
    }

    /// Register a TAP TEMPO tap at time `now` (microseconds) and update the
    /// bpm from the average of recent tap intervals. A tap long after the
    /// previous one starts a new sequence; only the last `TAP_COUNT` taps count.
    pub fn tap_tempo(&mut self, now: u64)
        ensures
            ({
                let old_taps = stamp_items(old(self).tap_times);
                let restart = old_taps.len() > 0 && now > old_taps.last() + TAP_RESTART_MICROS;
                let base = if restart {
                    Seq::<u64>::empty()
                } else {
                    old_taps
                };
                let taps = last_n(base.push(now), TAP_COUNT as nat);
                &&& stamp_items(final(self).tap_times) == taps
                &&& final(self).metronome.bpm == match spec_tapped_bpm(taps) {
                    Some(b) => b,
                    None => old(self).metronome.bpm,
                }
            }),
            final(self).metronome.beats_per_bar == old(self).metronome.beats_per_bar,
            final(self).metronome.running == old(self).metronome.running,
            final(self).metronome.beat_count == old(self).metronome.beat_count,
            final(self).metronome.graduated == old(self).metronome.graduated,
            final(self).metronome.sound == old(self).metronome.sound,
            final(self).tuner_on == old(self).tuner_on,
            final(self).tuner == old(self).tuner,
            final(self).audio == old(self).audio,
            final(self).theme == old(self).theme,
            final(self).settings_open == old(self).settings_open,
            final(self).last_on == old(self).last_on,
    {
        let restart = match stamps_last(&self.tap_times) {
            Some(last) => now > last && now - last > TAP_RESTART_MICROS,
            None => false,
        };
        let mut base = if restart {
            stamps_new()
        } else {
            stamps_clone(&self.tap_times)
        };
        stamps_push_back(&mut base, now);
        let taps = keep_last(&base, TAP_COUNT);
        if let Some(bpm) = tapped_bpm(&taps) {
            self.metronome.bpm = bpm;
        }
        self.tap_times = taps;
    }

    /// Start of a frame's audio work; see [`AudioEngine::poll`].
    pub fn poll_audio(&mut self) -> (step: PollStep)
        ensures
            step == (if old(self).audio.tuner.enabled {
                PollStep::Listen { open_stream: !old(self).audio.tuner.started }
            } else {
                PollStep::Idle
            }),
            final(self).audio.metronome == old(self).audio.metronome,
            final(self).audio.tuner.enabled == old(self).audio.tuner.enabled,
            final(self).audio.tuner.a4_mhz == old(self).audio.tuner.a4_mhz,
            final(self).audio.tuner.scale == old(self).audio.tuner.scale,
            final(self).audio.tuner.transpose == old(self).audio.tuner.transpose,
            final(self).audio.tuner.started == (old(self).audio.tuner.started
                || old(self).audio.tuner.enabled),
            final(self).audio.tuner.reading == if old(self).audio.tuner.enabled {
                old(self).audio.tuner.reading
            } else {
                None
            },
            final(self).tuner_on == old(self).tuner_on,
            final(self).tuner == old(self).tuner,
            final(self).metronome == old(self).metronome,
            final(self).tap_times == old(self).tap_times,
            final(self).theme == old(self).theme,
            final(self).settings_open == old(self).settings_open,
            final(self).last_on == old(self).last_on,
    {
        self.audio.poll()
    }

    /// Pull the latest audio state into the display model: the beat counter,
    /// and the reading while the tuner is on.
    pub fn pull_audio_state(&mut self)
        ensures
            final(self).metronome.beat_count == old(self).audio.metronome.beat_count,
            final(self).tuner.reading == if old(self).tuner_on {
                old(self).audio.tuner.reading
            } else {
                None
            },
            final(self).tuner_on == old(self).tuner_on,
            final(self).tuner.a4_mhz == old(self).tuner.a4_mhz,
            final(self).tuner.scale == old(self).tuner.scale,
            final(self).tuner.accidentals == old(self).tuner.accidentals,
            final(self).tuner.transpose == old(self).tuner.transpose,
            final(self).metronome.bpm == old(self).metronome.bpm,
            final(self).metronome.beats_per_bar == old(self).metronome.beats_per_bar,
            final(self).metronome.running == old(self).metronome.running,
            final(self).metronome.graduated == old(self).metronome.graduated,
            final(self).metronome.sound == old(self).metronome.sound,
            final(self).audio == old(self).audio,
            final(self).tap_times == old(self).tap_times,
            final(self).theme == old(self).theme,
            final(self).settings_open == old(self).settings_open,
            final(self).last_on == old(self).last_on,
    {
        self.metronome.beat_count = self.audio.metronome_beat_count();
        self.tuner.reading = if self.tuner_on {
            self.audio.tuner_reading()
        } else {
            None
        };
    }

    /// End of a frame: remember the on-set, push the (possibly updated) UI
    /// settings to the engine, then act on a user gesture — a click or space
    /// that just started an instrument unlocks audio and asks for the mic.
    pub fn finish_frame(&mut self, gesture: bool) -> (fx: FrameEffects)
        ensures
            final(self).last_on == if old(self).tuner_on || old(self).metronome.running {
                (old(self).tuner_on, old(self).metronome.running)
            } else {
                old(self).last_on
            },
            final(self).audio.metronome.control.bpm == clamp(
                old(self).metronome.bpm as int,
                BPM_MIN as int,
                BPM_MAX as int,
            ),
            final(self).audio.metronome.control.beats == clamp(
                old(self).metronome.beats_per_bar as int,
                BEATS_MIN as int,
                BEATS_MAX as int,
            ),
            final(self).audio.metronome.control.running == old(self).metronome.running,
            final(self).audio.metronome.sound == old(self).metronome.sound,
            final(self).audio.tuner.enabled == old(self).tuner_on,
            final(self).audio.tuner.a4_mhz == old(self).tuner.a4_mhz,
            final(self).audio.tuner.scale == old(self).tuner.scale,
            final(self).audio.tuner.transpose == old(self).tuner.transpose,
            fx.enable.stream == if old(self).tuner_on == old(self).audio.tuner.enabled {
                crate::tuner::StreamCommand::Keep
            } else if old(self).tuner_on {
                crate::tuner::StreamCommand::Play
            } else {
                crate::tuner::StreamCommand::Pause
            },
            fx.enable.clear_samples == (!old(self).tuner_on && old(self).audio.tuner.enabled),
            gesture ==> fx.gesture == (GestureEffect {
                open_metronome: !old(self).audio.metronome.started,
                open_tuner: old(self).tuner_on && !old(self).audio.tuner.started,
            }),
            !gesture ==> fx.gesture == (GestureEffect { open_metronome: false, open_tuner: false }),
            final(self).audio.metronome.beat_count == old(self).audio.metronome.beat_count,
            final(self).audio.metronome.started == (old(self).audio.metronome.started || gesture),
            final(self).audio.tuner.reading == if !old(self).tuner_on && old(self).audio.tuner.enabled {
                None
            } else {
                old(self).audio.tuner.reading
            },
            final(self).audio.tuner.started == (old(self).audio.tuner.started || (gesture
                && old(self).tuner_on)),
            final(self).tuner_on == old(self).tuner_on,
            final(self).tuner == old(self).tuner,
            final(self).metronome == old(self).metronome,
            final(self).tap_times == old(self).tap_times,
            final(self).theme == old(self).theme,
            final(self).settings_open == old(self).settings_open,
    {
        self.record_on_set();
        self.audio.metronome_set(
            self.metronome.bpm,
            self.metronome.beats_per_bar,
            self.metronome.running,
        );
        self.audio.metronome_set_sound(self.metronome.sound);
        let enable = self.audio.tuner_set_enabled(self.tuner_on);
        self.audio.tuner_set_a4(self.tuner.a4_mhz);
        self.audio.tuner_set_scale(self.tuner.scale);
        self.audio.tuner_set_transpose(self.tuner.transpose);
        let gesture = if gesture {
            self.audio.on_user_gesture()
        } else {
            GestureEffect { open_metronome: false, open_tuner: false }
        };
        FrameEffects { enable, gesture }
    }
}

/// Saving and restoring keeps the device as it was: settings taken from a
/// device whose values are within their bounds, with something remembered for
/// the space bar, restore exactly those values.
pub proof fn lemma_saved_settings_restore(s: Settings, a4_mhz: u32)
    requires
        BPM_MIN <= s.bpm <= BPM_MAX,
        BEATS_MIN <= s.beats_per_bar <= BEATS_MAX,
        A4_MIN_MHZ <= a4_mhz <= A4_MAX_MHZ,
        s.a4_mhz == Some(a4_mhz as i64),
        s.last_on != (false, false),
    ensures
        restored_a4(s.a4_mhz) == a4_mhz,
        clamp(s.bpm as int, BPM_MIN as int, BPM_MAX as int) == s.bpm,
        clamp(s.beats_per_bar as int, BEATS_MIN as int, BEATS_MAX as int) == s.beats_per_bar,
        (if s.last_on == (false, false) {
            (false, true)
        } else {
            s.last_on
        }) == s.last_on,
{
}

/// The space bar is a play/pause toggle: with an on-set running and
/// remembered, a press stops everything and a second press brings exactly that
/// on-set back.
pub proof fn lemma_space_pauses_and_resumes(tuner_on: bool, running: bool)
    requires
        tuner_on || running,
    ensures
        space_transition(tuner_on, running, (tuner_on, running)) == (false, false),
        space_transition(false, false, (tuner_on, running)) == (tuner_on, running),
{
}

/// The remembered on-set is never both-off: restoring it from saved settings
/// and recording it at the end of a frame both keep something to bring back,
/// so space from a silent device always starts an instrument.
pub proof fn lemma_last_on_never_silent(saved: (bool, bool), tuner_on: bool, running: bool, last_on: (
    bool,
    bool,
))
    requires
        last_on != (false, false),
    ensures
        (if saved == (false, false) {
            (false, true)
        } else {
            saved
        }) != (false, false),
        (if tuner_on || running {
            (tuner_on, running)
        } else {
            last_on
        }) != (false, false),
        space_transition(false, false, last_on) != (false, false),
{
}

} // verus!
