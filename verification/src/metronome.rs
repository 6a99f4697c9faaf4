//! Metronome decisions. The audio callback (outside this crate) runs a
//! per-sample beat clock; at each beat boundary it asks [`BeatClock::on_beat`]
//! which click to sound, and it draws the mechanical tick's noise from
//! [`next_noise_state`]. The UI side keeps a [`Metronome`]: the settings it
//! pushes to the audio thread and the beat counter it reads back.

use vstd::prelude::*;

use vstd::arithmetic::div_mod::{lemma_fundamental_div_mod, lemma_fundamental_div_mod_converse_mod};

use crate::tempo::{clamp, BPM_MAX, BPM_MIN};

verus! {

/// Beats-per-bar bounds. 0 = no accented downbeat, just a steady uniform tick.
pub const BEATS_MIN: u32 = 0;

/// Beats-per-bar bounds.
pub const BEATS_MAX: u32 = 12;

/// Which click sound the metronome makes.
#[derive(Clone, Copy, PartialEq, Eq, Debug, Structural)]
pub enum Sound {
    /// Synthesized electronic "beep" — a short decaying sine.
    Electronic,
    /// Old-school mechanical metronome "tick" — a short wooden knock.
    Mechanical,
}

impl Default for Sound {
    fn default() -> (s: Sound)
        ensures
            s == Sound::Electronic,
    {
        Sound::Electronic
    }
}

/// The byte that stands for a sound on the audio thread.
pub open spec fn sound_code(s: Sound) -> u8 {
    match s {
        Sound::Electronic => 0,
        Sound::Mechanical => 1,
    }
}

/// Decoding of a sound byte: 1 is Mechanical, anything else the default.
pub open spec fn spec_sound_from_u8(v: u8) -> Sound {
    if v == 1 {
        Sound::Mechanical
    } else {
        Sound::Electronic
    }
}

impl Sound {
    /// Total decode of the byte representation (`to_u8`); an unknown value
    /// falls back to the default, so the audio thread never sees an invalid one.
    pub fn from_u8(v: u8) -> (s: Sound)
        ensures
            s == spec_sound_from_u8(v),
    {
        match v {
            1 => Sound::Mechanical,
            _ => Sound::Electronic,
        }
    }

    /// The byte that stands for this sound on the audio thread.
    pub fn to_u8(self) -> (v: u8)
        ensures
            v == sound_code(self),
    {
        match self {
            Sound::Electronic => 0,
            Sound::Mechanical => 1,
        }
    }
}

/// Decoding a sound's byte gives the sound back.
pub proof fn lemma_sound_code_round_trip(s: Sound)
    ensures
        spec_sound_from_u8(sound_code(s)) == s,
{
}

/// Metronome settings the UI hands to the audio thread. They carry no
/// cross-field invariant, so the audio side may read them one at a time.
#[derive(Clone, Copy, PartialEq, Eq, Debug, Structural)]
pub struct Control {
    pub bpm: u32,
    pub beats: u32,
    pub running: bool,
}

/// The UI side of the metronome: the latest settings for the audio thread,
/// the click sound, the beat counter last reported by the audio thread and
/// whether the audio stream has been asked for.
pub struct Metronome {
    pub control: Control,
    pub sound: Sound,
    pub beat_count: u32,
    pub started: bool,
}

impl Metronome {
    /// 120 bpm in 4, stopped, electronic click, no beat yet, no stream.
    pub fn new() -> (m: Metronome)
        ensures
            m.control == (Control { bpm: 120, beats: 4, running: false }),
            m.sound == Sound::Electronic,
            m.beat_count == 0,
            !m.started,
    {
        Metronome {
            control: Control { bpm: 120, beats: 4, running: false },
            sound: Sound::Electronic,
            beat_count: 0,
            started: false,
        }
    }

    /// Take the latest UI settings, clamping tempo and beats into range as a
    /// defensive net against an out-of-range value from any caller.
    pub fn set(&mut self, bpm: u32, beats: u32, running: bool)
        ensures
            final(self).control == (Control {
                bpm: clamp(bpm as int, BPM_MIN as int, BPM_MAX as int) as u32,
                beats: clamp(beats as int, BEATS_MIN as int, BEATS_MAX as int) as u32,
                running,
            }),
            final(self).sound == old(self).sound,
            final(self).beat_count == old(self).beat_count,
            final(self).started == old(self).started,
    {
        let b = if bpm < BPM_MIN {
            BPM_MIN
        } else if bpm > BPM_MAX {
            BPM_MAX
        } else {
            bpm
        };
        let n = if beats > BEATS_MAX {
            BEATS_MAX
        } else {
            beats
        };
        self.control = Control { bpm: b, beats: n, running };
    }

    /// Set the click sound.
    pub fn set_sound(&mut self, sound: Sound)
        ensures
            final(self).sound == sound,
            final(self).control == old(self).control,
            final(self).beat_count == old(self).beat_count,
            final(self).started == old(self).started,
    {
        self.sound = sound;
    }

    /// The beat counter last reported by the audio thread.
    pub fn beat_count(&self) -> (c: u32)
        ensures
            c == self.beat_count,
    {
        self.beat_count
    }

    /// Note the beat counter the audio thread reports.
    pub fn record_beat_count(&mut self, count: u32)
        ensures
            final(self).beat_count == count,
            final(self).control == old(self).control,
            final(self).sound == old(self).sound,
            final(self).started == old(self).started,
    {
        self.beat_count = count;
    }

    /// Whether to open the audio stream now. The stream is asked for once
    /// only, so a failed attempt is not retried every frame.
    pub fn ensure_started(&mut self) -> (open_now: bool)
        ensures
            open_now == !old(self).started,
            final(self).started,
            final(self).control == old(self).control,
            final(self).sound == old(self).sound,
            final(self).beat_count == old(self).beat_count,
    {
        if self.started {
            return false;
        }
        self.started = true;
        true
    }
}

/// The primary per-beat click, held until it finishes so a mid-click settings
/// change never switches the waveform partway.
#[derive(Clone, Copy, PartialEq, Eq, Debug, Structural)]
pub enum Voice {
    /// Electronic beep — a decaying sine.
    Beep,
    /// Mechanical wooden tick — noise + body.
    Tick,
}

/// What sounds on a beat: the click's voice and pitch, and whether the bell
/// accent rings on top of it.
#[derive(Clone, Copy, PartialEq, Eq, Debug, Structural)]
pub struct Click {
    pub voice: Voice,
    pub freq_hz: u32,
    pub bell: bool,
}

/// The click for a beat: electronic beeps at 1000 Hz on the downbeat and
/// 800 Hz otherwise; the mechanical tick is the same 1500 Hz knock on every
/// beat, with the bell ringing over the downbeat.
pub open spec fn spec_click(sound: Sound, downbeat: bool) -> Click {
    match sound {
        Sound::Electronic => Click {
            voice: Voice::Beep,
            freq_hz: if downbeat {
                1000
            } else {
                800
            },
            bell: false,
        },
        Sound::Mechanical => Click { voice: Voice::Tick, freq_hz: 1500, bell: downbeat },
    }
}

/// The period of the beat counter within the bar. With 0 beats per bar there
/// is no bar to count (no beat is accented), and the counter rests at 0.
pub open spec fn bar_len(beats: u32) -> int {
    if beats == 0 {
        1
    } else {
        beats as int
    }
}

/// Whether the beat at position `index` of the bar is the accented downbeat:
/// the first beat of a bar, and never with 0 beats per bar.
pub open spec fn is_accented(beats: u32, index: u32) -> bool {
    beats != 0 && index == 0
}

/// What each click sounds like: the mechanical sound is the same wooden tick
/// (1500 Hz) on every beat, downbeat or not, with only the bell marking the
/// downbeat; the electronic sound is a beep, 1000 Hz on the downbeat and
/// 800 Hz otherwise, never with the bell.
pub proof fn lemma_click_sounds(sound: Sound, downbeat: bool)
    ensures
        sound == Sound::Mechanical ==> ({
            let c = spec_click(sound, downbeat);
            &&& c.voice == Voice::Tick
            &&& c.freq_hz == 1500
            &&& c.bell == downbeat
        }),
        sound == Sound::Electronic ==> ({
            let c = spec_click(sound, downbeat);
            &&& c.voice == Voice::Beep
            &&& !c.bell
            &&& c.freq_hz == (if downbeat {
                1000u32
            } else {
                800u32
            })
        }),
        spec_click(Sound::Mechanical, true).voice == spec_click(Sound::Mechanical, false).voice,
        spec_click(Sound::Mechanical, true).freq_hz == spec_click(Sound::Mechanical, false).freq_hz,
{
}

/// The audio callback's beat state: the position in the bar, the monotonic
/// beat counter reported to the UI, and the transport state of the previous
/// buffer.
#[derive(Clone, Copy, PartialEq, Eq, Debug, Structural)]
pub struct BeatClock {
    pub beat_index: u32,
    pub tick: u32,
    pub prev_running: bool,
}

impl BeatClock {
    /// Stopped, at the start of a bar, no beat counted yet.
    pub fn new() -> (c: BeatClock)
        ensures
            c == (BeatClock { beat_index: 0, tick: 0, prev_running: false }),
    {
        BeatClock { beat_index: 0, tick: 0, prev_running: false }
    }

    /// Note the transport state at the start of an audio buffer. Returns true
    /// when the metronome has just started: the bar restarts and the downbeat
    /// must sound on the next sample.
    pub fn start_buffer(&mut self, running: bool) -> (restart: bool)
        ensures
            restart == (running && !old(self).prev_running),
            final(self).prev_running == running,
            final(self).tick == old(self).tick,
            final(self).beat_index == if restart {
                0
            } else {
                old(self).beat_index
            },
    {
        let restart = running && !self.prev_running;
        if restart {
            self.beat_index = 0;
        }
        self.prev_running = running;
        restart
    }

    /// A beat boundary: choose the click (the first beat of the bar is the
    /// accented downbeat; with 0 beats per bar no beat is accented), count
    /// the beat and move on in the bar.
    pub fn on_beat(&mut self, sound: Sound, beats: u32) -> (c: Click)
        ensures
            c == spec_click(sound, is_accented(beats, old(self).beat_index)),
            sound == Sound::Mechanical ==> c.voice == Voice::Tick && c.freq_hz == 1500 && c.bell
                == (beats != 0 && old(self).beat_index == 0),
            sound == Sound::Electronic ==> c.voice == Voice::Beep && !c.bell && c.freq_hz == if beats
                != 0 && old(self).beat_index == 0 {
                1000u32
            } else {
                800u32
            },
            final(self).tick == (old(self).tick + 1) % 0x1_0000_0000,
            final(self).beat_index == (old(self).beat_index + 1) % bar_len(beats),
            final(self).prev_running == old(self).prev_running,
    {
        let downbeat = beats != 0 && self.beat_index == 0;
        let c = match sound {
            Sound::Electronic => Click {
                voice: Voice::Beep,
                freq_hz: if downbeat {
                    1000
                } else {
                    800
                },
                bell: false,
            },
            Sound::Mechanical => Click { voice: Voice::Tick, freq_hz: 1500, bell: downbeat },
        };
        self.tick = self.tick.wrapping_add(1);
        let m: u64 = if beats == 0 {
            1
        } else {
            beats as u64
        };
        self.beat_index = ((self.beat_index as u64 + 1) % m) as u32;
        c
    }
}

/// Counting beats: `k` beats after a restart, with the bar length unchanged,
/// the clock stands at beat `k mod bar` of the bar, so the accented downbeat
/// sounds on exactly every `beats`-th beat, and never with 0 beats per bar.
/// One more beat keeps that true.
pub proof fn lemma_beat_index_counts_bar(k: int, beats: u32, index: u32)
    requires
        0 <= k,
        index == k % bar_len(beats),
    ensures
        (index + 1) % bar_len(beats) == (k + 1) % bar_len(beats),
        is_accented(beats, index) == (beats != 0 && k % (beats as int) == 0),
{
    let m = bar_len(beats);
    lemma_fundamental_div_mod(k, m);
    lemma_fundamental_div_mod(k + 1, m);
    let q = k / m;
    assert(k + 1 == m * q + (index + 1));
    if index + 1 < m {
        lemma_fundamental_div_mod_converse_mod(k + 1, m, q, index + 1);
        lemma_fundamental_div_mod_converse_mod(index + 1, m, 0, index + 1);
    } else {
        assert(index + 1 == m);
        assert(k + 1 == m * (q + 1)) by (nonlinear_arith)
            requires
                k + 1 == m * q + m,
        ;
        lemma_fundamental_div_mod_converse_mod(k + 1, m, q + 1, 0);
        lemma_fundamental_div_mod_converse_mod(index + 1, m, 1, 0);
    }
}

/// The beat counter reported to the UI counts beats modulo `2^32`: a clock
/// that has fired `n` beats since it was created (at 0) holds `n mod 2^32`,
/// and the next beat keeps that true.
pub proof fn lemma_tick_counts_beats(n: nat, tick: u32)
    requires
        tick == n % 0x1_0000_0000,
    ensures
        (tick + 1) % 0x1_0000_0000 == (n + 1) % 0x1_0000_0000,
{
    let m: int = 0x1_0000_0000;
    lemma_fundamental_div_mod(n as int, m);
    let q = (n as int) / m;
    assert(n + 1 == m * q + (tick + 1));
    if tick + 1 < m {
        lemma_fundamental_div_mod_converse_mod(n + 1int, m, q, tick + 1);
        lemma_fundamental_div_mod_converse_mod(tick + 1, m, 0, tick + 1);
    } else {
        assert(n + 1 == m * (q + 1)) by (nonlinear_arith)
            requires
                n + 1 == m * q + m,
        ;
        lemma_fundamental_div_mod_converse_mod(n + 1int, m, q + 1, 0);
        lemma_fundamental_div_mod_converse_mod(tick + 1, m, 1, 0);
    }
}

/// One step of the xorshift32 generator behind the mechanical tick's noise.
pub open spec fn xorshift32(x: u32) -> u32 {
    let a = x ^ (x << 13u32);
    let b = a ^ (a >> 17u32);
    b ^ (b << 5u32)
}

/// The next state of the noise generator (a fast xorshift PRNG, allocation-free
/// and audio-thread safe). The noise sample is this state scaled to `[-1, 1]`.
pub fn next_noise_state(state: u32) -> (next: u32)
    ensures
        next == xorshift32(state),
{
    let mut x = state;
    x ^= x << 13;
    x ^= x >> 17;
    x ^= x << 5;
    x
}

/// The generator never falls into the all-zero state: a non-zero state stays
/// non-zero, so the noise never goes silent.
pub proof fn lemma_noise_state_stays_nonzero(x: u32)
    requires
        x != 0,
    ensures
        xorshift32(x) != 0,
{
    let a = x ^ (x << 13u32);
    let b = a ^ (a >> 17u32);
    assert(x != 0 ==> x ^ (x << 13u32) != 0) by (bit_vector);
    assert(a != 0 ==> a ^ (a >> 17u32) != 0) by (bit_vector);
    assert(b != 0 ==> b ^ (b << 5u32) != 0) by (bit_vector);
}

} // verus!
