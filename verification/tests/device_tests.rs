use tm2077::controls::HoldRepeat;
use tm2077::display::{
    a4_display_hz, needle_bands, needle_deflection, number_digits, NeedleSource, segments, tuning_leds, NeedleSwing,
    TuningLeds,
};
use tm2077::engine::{AudioEngine, GestureEffect};
use tm2077::metronome::{next_noise_state, BeatClock, Click, Metronome, Sound, Voice};
use tm2077::note::{Accidentals, Name, NoteReading, Scale, Transposition};
use tm2077::samples::{trim_to_recent, window_start, BlockFill, BLOCK, WINDOW};
use tm2077::pvec::PVector;
use tm2077::shell::{Settings, Tm2077App};
use tm2077::tempo::tapped_bpm;
use tm2077::theme::{Palette, Rgba, Theme};
use tm2077::tuner::{Detection, EnableEffect, MicSession, PollStep, StreamCommand, Tuner};

#[test]
fn set_stores_clamped_control() {
    let mut m = Metronome::new();
    m.set(150, 3, true);
    assert_eq!(m.control.bpm, 150);
    assert_eq!(m.control.beats, 3);
    assert!(m.control.running);

    // Out-of-range inputs are clamped before being stored.
    m.set(9999, 99, false);
    assert_eq!(m.control.bpm, 300);
    assert_eq!(m.control.beats, 12);
    assert!(!m.control.running);

    // Sound is a separate setting with its own setter.
    m.set_sound(Sound::Mechanical);
    assert_eq!(Sound::from_u8(m.sound.to_u8()), Sound::Mechanical);
}

#[test]
fn low_tempo_is_clamped_up() {
    let mut m = Metronome::new();
    m.set(1, 0, true);
    assert_eq!(m.control.bpm, 30);
    assert_eq!(m.control.beats, 0);
}

#[test]
fn sound_bytes_decode_totally() {
    assert_eq!(Sound::from_u8(0), Sound::Electronic);
    assert_eq!(Sound::from_u8(1), Sound::Mechanical);
    assert_eq!(Sound::from_u8(2), Sound::Electronic);
    assert_eq!(Sound::from_u8(255), Sound::Electronic);
    for s in [Sound::Electronic, Sound::Mechanical] {
        assert_eq!(Sound::from_u8(s.to_u8()), s);
    }
    assert_eq!(Sound::default(), Sound::Electronic);
}

#[test]
fn metronome_stream_is_opened_once() {
    let mut m = Metronome::new();
    assert!(m.ensure_started());
    assert!(!m.ensure_started());
    m.record_beat_count(7);
    assert_eq!(m.beat_count(), 7);
}

#[test]
fn beat_clock_accents_the_downbeat() {
    let mut c = BeatClock::new();
    assert!(c.start_buffer(true));
    assert!(!c.start_buffer(true));
    let clicks: Vec<Click> = (0..7).map(|_| c.on_beat(Sound::Electronic, 3)).collect();
    let freqs: Vec<u32> = clicks.iter().map(|k| k.freq_hz).collect();
    assert_eq!(freqs, vec![1000, 800, 800, 1000, 800, 800, 1000]);
    assert!(clicks.iter().all(|k| k.voice == Voice::Beep && !k.bell));
    assert_eq!(c.tick, 7);
    assert_eq!(c.beat_index, 1);
}

#[test]
fn mechanical_bell_rings_on_the_downbeat_only() {
    let mut c = BeatClock::new();
    c.start_buffer(true);
    let bells: Vec<bool> = (0..5).map(|_| c.on_beat(Sound::Mechanical, 2).bell).collect();
    assert_eq!(bells, vec![true, false, true, false, true]);
    let k = c.on_beat(Sound::Mechanical, 2);
    assert_eq!((k.voice, k.freq_hz), (Voice::Tick, 1500));
}

#[test]
fn zero_beats_accents_no_beat() {
    let mut c = BeatClock::new();
    c.start_buffer(true);
    for _ in 0..4 {
        assert_eq!(c.on_beat(Sound::Electronic, 0).freq_hz, 800);
        assert_eq!(c.beat_index, 0);
    }
    let mut m = BeatClock::new();
    m.start_buffer(true);
    for _ in 0..3 {
        let k = m.on_beat(Sound::Mechanical, 0);
        assert_eq!((k.voice, k.freq_hz, k.bell), (Voice::Tick, 1500, false));
    }
    // One beat per bar accents every beat.
    let mut one = BeatClock::new();
    one.start_buffer(true);
    assert_eq!(one.on_beat(Sound::Electronic, 1).freq_hz, 1000);
    assert_eq!(one.on_beat(Sound::Electronic, 1).freq_hz, 1000);
}

#[test]
fn restart_returns_to_the_downbeat() {
    let mut c = BeatClock::new();
    c.start_buffer(true);
    c.on_beat(Sound::Electronic, 4);
    c.on_beat(Sound::Electronic, 4);
    assert!(!c.start_buffer(false));
    assert_eq!(c.beat_index, 2);
    assert!(c.start_buffer(true));
    assert_eq!(c.beat_index, 0);
    c.tick = u32::MAX;
    c.on_beat(Sound::Electronic, 4);
    assert_eq!(c.tick, 0);
}

#[test]
fn noise_state_follows_xorshift_and_never_sticks_at_zero() {
    let mut x: u32 = 0x9E37_79B9;
    let mut y = x;
    for _ in 0..10_000 {
        y ^= y << 13;
        y ^= y >> 17;
        y ^= y << 5;
        x = next_noise_state(x);
        assert_eq!(x, y);
        assert_ne!(x, 0);
    }
    assert_eq!(next_noise_state(1), 270_369);
}

#[test]
fn tuner_transitions() {
    let mut t = Tuner::new();
    assert_eq!(t.poll(), PollStep::Idle);
    assert!(!t.on_user_gesture());
    assert_eq!(
        t.set_enabled(true),
        EnableEffect { stream: StreamCommand::Play, clear_samples: false }
    );
    assert_eq!(
        t.set_enabled(true),
        EnableEffect { stream: StreamCommand::Keep, clear_samples: false }
    );
    assert_eq!(t.poll(), PollStep::Listen { open_stream: true });
    assert_eq!(t.poll(), PollStep::Listen { open_stream: false });
    assert!(!t.on_user_gesture());
    t.record_detection(Some(Detection { freq_mhz: 440_000, offset: 0 }));
    assert_eq!(t.reading().map(|r| r.note), Some(Name::A.natural()));
    assert_eq!(
        t.set_enabled(false),
        EnableEffect { stream: StreamCommand::Pause, clear_samples: true }
    );
    assert_eq!(t.reading(), None);
    t.record_detection(None);
    assert_eq!(t.reading(), None);
}

#[test]
fn tuner_reading_uses_scale_and_transposition() {
    let mut t = Tuner::new();
    t.set_enabled(true);
    t.set_scale(Scale::Guitar);
    t.set_transpose(Transposition::BFlat);
    t.set_a4(442_000);
    assert_eq!(t.a4_mhz, 442_000);
    // A quarter tone below concert A4 is written a quarter tone above A#4 on
    // a B♭ instrument, and snaps to the B string.
    t.record_detection(Some(Detection { freq_mhz: 427_500, offset: -50_000 }));
    let r = t.reading().expect("a reading");
    assert_eq!(r.note, Name::B.natural());
    assert_eq!(r.millicents, -50_000);
    assert_eq!(r.freq_mhz, 427_500);
}

#[test]
fn gesture_opens_tuner_once_while_on() {
    let mut t = Tuner::new();
    t.set_enabled(true);
    assert!(t.on_user_gesture());
    assert!(!t.on_user_gesture());
    assert_eq!(t.poll(), PollStep::Listen { open_stream: false });
}

#[test]
fn mic_session_disowns_late_streams() {
    let mut s = MicSession::new();
    let first = s.begin_request().expect("a request");
    assert_eq!(s.begin_request(), None);
    assert!(s.accepts(first));
    s.release();
    assert!(!s.accepts(first));
    let second = s.begin_request().expect("a new request");
    assert_ne!(first, second);
    assert!(s.accepts(second));
    s.request_failed();
    assert!(s.begin_request().is_some());
    let mut w = MicSession { generation: u64::MAX, requested: false };
    let t = w.begin_request().expect("wraps");
    assert_eq!(t, 0);
}

#[test]
fn engine_facade() {
    let mut e = AudioEngine::new();
    e.metronome_set(500, 20, true);
    assert_eq!((e.metronome.control.bpm, e.metronome.control.beats), (300, 12));
    e.metronome_set_sound(Sound::Mechanical);
    assert_eq!(e.metronome.sound, Sound::Mechanical);
    assert_eq!(e.metronome_beat_count(), 0);
    assert_eq!(
        e.on_user_gesture(),
        GestureEffect { open_metronome: true, open_tuner: false }
    );
    e.tuner_set_enabled(true);
    e.tuner_set_scale(Scale::QuarterTone);
    e.tuner_set_transpose(Transposition::F);
    e.tuner_set_a4(430_000);
    assert_eq!(e.tuner.scale, Scale::QuarterTone);
    assert_eq!(e.tuner.transpose, Transposition::F);
    assert_eq!(e.tuner.a4_mhz, 430_000);
    assert_eq!(
        e.on_user_gesture(),
        GestureEffect { open_metronome: false, open_tuner: true }
    );
    assert_eq!(e.poll(), PollStep::Listen { open_stream: false });
    assert_eq!(e.tuner_reading(), None);
}

#[test]
fn seven_segment_digits() {
    assert_eq!(number_digits(120, 3), vec![Some(1), Some(2), Some(0)]);
    assert_eq!(number_digits(7, 3), vec![None, None, Some(7)]);
    assert_eq!(number_digits(0, 2), vec![None, Some(0)]);
    assert_eq!(number_digits(12, 2), vec![Some(1), Some(2)]);
    // 1319 in 3 cells must not read "319": the field blanks.
    assert_eq!(number_digits(1319, 3), vec![None, None, None]);
    assert_eq!(number_digits(1000, 3), vec![None, None, None]);
    assert_eq!(number_digits(999, 3), vec![Some(9), Some(9), Some(9)]);
    // A field wider than u32 holds any value; places beyond u32 stay blank.
    let wide = number_digits(u32::MAX, 11);
    assert_eq!(wide[0], None);
    assert_eq!(wide[1], Some(4));
    assert_eq!(wide[10], Some(5));
    assert_eq!(number_digits(5, 0), Vec::<Option<u8>>::new());
    assert_eq!(segments(Some(8)), [true; 7]);
    assert_eq!(segments(Some(1)), [false, true, true, false, false, false, false]);
    assert_eq!(segments(None), [false; 7]);
    assert_eq!(segments(Some(10)), [false; 7]);
}

fn reading_at(millicents: i32) -> NoteReading {
    NoteReading::from_pitch(0, millicents, Scale::Chromatic, Transposition::Concert)
}

#[test]
fn tuning_leds_light_one_at_a_time() {
    let none = TuningLeds { flat: false, in_tune: false, sharp: false };
    assert_eq!(tuning_leds(false, Some(reading_at(0))), none);
    assert_eq!(tuning_leds(true, None), none);
    assert_eq!(
        tuning_leds(true, Some(reading_at(0))),
        TuningLeds { flat: false, in_tune: true, sharp: false }
    );
    assert_eq!(
        tuning_leds(true, Some(reading_at(-4_001))),
        TuningLeds { flat: true, in_tune: false, sharp: false }
    );
    assert_eq!(
        tuning_leds(true, Some(reading_at(4_001))),
        TuningLeds { flat: false, in_tune: false, sharp: true }
    );
    assert_eq!(
        tuning_leds(true, Some(reading_at(4_000))),
        TuningLeds { flat: false, in_tune: true, sharp: false }
    );
}

#[test]
fn needle_is_pinned_to_fifty_cents() {
    assert_eq!(needle_deflection(true, Some(reading_at(12_000))), 12_000);
    assert_eq!(needle_deflection(false, Some(reading_at(12_000))), 0);
    assert_eq!(needle_deflection(true, None), 0);
    let r = NoteReading { freq_mhz: 0, note: Name::A.natural(), octave: 4, millicents: -80_000 };
    assert_eq!(needle_deflection(true, Some(r)), -50_000);
    let r = NoteReading { millicents: 70_000, ..r };
    assert_eq!(needle_deflection(true, Some(r)), 50_000);
}

#[test]
fn needle_swings_on_each_beat() {
    let mut s = NeedleSwing::new();
    assert_eq!(s.update(false, 5), -1);
    assert_eq!(s.update(true, 5), -1);
    assert_eq!(s.update(true, 6), 1);
    assert_eq!(s.update(true, 6), 1);
    assert_eq!(s.update(true, 7), -1);
    assert_eq!(s.update(false, 9), -1);
    let mut fresh = NeedleSwing::new();
    assert_eq!(fresh.update(true, 3), -1);
    assert_eq!(fresh.update(true, 4), 1);
}

#[test]
fn calibration_readout_rounds() {
    assert_eq!(a4_display_hz(440_000), 440);
    assert_eq!(a4_display_hz(440_499), 440);
    assert_eq!(a4_display_hz(440_500), 441);
}

#[test]
fn light_theme_keeps_the_display_colours() {
    let dark = Theme::Dark.palette();
    let light = Theme::Light.palette();
    assert_eq!(dark, Palette::dark());
    assert_eq!(light, Palette::light());
    assert_eq!(light.lcd_bg, dark.lcd_bg);
    assert_eq!(light.lcd_ink_dim, Rgba { r: 0x2b, g: 0x1c, b: 0x04, a: 0x24 });
    assert_eq!(light.tap, dark.tap);
    assert_eq!(light.btn_on, dark.btn_on);
    assert_eq!(light.body, Rgba { r: 0xd7, g: 0xd9, b: 0xdc, a: 0xff });
    assert_ne!(light.body, dark.body);
    assert_eq!(Theme::default(), Theme::Dark);
}

#[test]
fn samples_are_framed() {
    let mut w: Vec<u32> = (0..10).collect();
    trim_to_recent(&mut w, 4);
    assert_eq!(w, vec![6, 7, 8, 9]);
    trim_to_recent(&mut w, 8);
    assert_eq!(w, vec![6, 7, 8, 9]);
    assert_eq!(window_start(WINDOW - 1), None);
    assert_eq!(window_start(WINDOW), Some(0));
    assert_eq!(window_start(WINDOW + 10), Some(10));
    let mut b = BlockFill::new();
    for i in 0..BLOCK - 1 {
        assert_eq!(b.place(), (Some(i), false));
    }
    assert_eq!(b.place(), (Some(BLOCK - 1), true));
    assert_eq!(b.place(), (Some(0), false));
    // A block left over-full hands nothing out and stays put.
    let mut stuck = BlockFill { filled: BLOCK + 1 };
    assert_eq!(stuck.place(), (None, false));
    assert_eq!(stuck.filled, BLOCK + 1);
}

#[test]
fn restore_sanitises_saved_settings() {
    let saved = Settings {
        bpm: 9_000,
        beats_per_bar: 40,
        a4_mhz: Some(500_000),
        theme: Theme::Light,
        scale: Scale::Guitar,
        accidentals: Accidentals::Flats,
        transpose: Transposition::EFlat,
        tempo_graduated: true,
        sound: Sound::Mechanical,
        last_on: (false, false),
    };
    let app = Tm2077App::new(&saved);
    assert!(!app.tuner_on);
    assert_eq!(app.tuner.a4_mhz, 480_000);
    assert_eq!(app.metronome.bpm, 300);
    assert_eq!(app.metronome.beats_per_bar, 12);
    assert_eq!(app.last_on, (false, true));
    assert_eq!(app.theme, Theme::Light);
    let s = app.settings();
    assert_eq!(s.a4_mhz, Some(480_000));
    assert_eq!(s.scale, Scale::Guitar);
    assert_eq!(s.accidentals, Accidentals::Flats);
    assert_eq!(s.tempo_graduated, true);
    let app = Tm2077App::new(&Settings { a4_mhz: None, bpm: 3, ..saved });
    assert_eq!(app.tuner.a4_mhz, 440_000);
    assert_eq!(app.metronome.bpm, 30);
    let app = Tm2077App::new(&Settings { a4_mhz: Some(-5), ..saved });
    assert_eq!(app.tuner.a4_mhz, 410_000);
    assert_eq!(Tm2077App::new(&Settings::default()).settings(), Settings::default());
}

#[test]
fn space_pauses_and_resumes_the_on_set() {
    let mut app = Tm2077App::new(&Settings::default());
    // Fresh install: space starts the metronome only.
    app.press_space();
    assert_eq!((app.tuner_on, app.metronome.running), (false, true));
    app.tuner_on = true;
    app.finish_frame(false);
    assert_eq!(app.last_on, (true, true));
    app.press_space();
    assert_eq!((app.tuner_on, app.metronome.running), (false, false));
    app.finish_frame(false);
    assert_eq!(app.last_on, (true, true));
    app.press_space();
    assert_eq!((app.tuner_on, app.metronome.running), (true, true));
    assert!(app.needs_repaint(false));
    app.press_space();
    assert!(!app.needs_repaint(false));
    assert!(app.needs_repaint(true));
}

#[test]
fn frame_pushes_settings_and_gestures() {
    let mut app = Tm2077App::new(&Settings::default());
    app.metronome.running = true;
    app.tuner_on = true;
    app.tuner.calib_up();
    let fx = app.finish_frame(true);
    assert_eq!(fx.enable, EnableEffect { stream: StreamCommand::Play, clear_samples: false });
    assert_eq!(fx.gesture, GestureEffect { open_metronome: true, open_tuner: true });
    assert!(app.audio.metronome.control.running);
    assert_eq!(app.audio.tuner.a4_mhz, 441_000);
    assert_eq!(app.poll_audio(), PollStep::Listen { open_stream: false });
    app.audio.tuner.record_detection(Some(Detection { freq_mhz: 441_000, offset: 0 }));
    app.audio.metronome.record_beat_count(3);
    app.pull_audio_state();
    assert_eq!(app.metronome.beat_count, 3);
    assert_eq!(app.tuner.reading.map(|r| r.note), Some(Name::A.natural()));
    app.tuner_on = false;
    let fx = app.finish_frame(false);
    assert_eq!(fx.enable, EnableEffect { stream: StreamCommand::Pause, clear_samples: true });
    assert_eq!(fx.gesture, GestureEffect { open_metronome: false, open_tuner: false });
    app.pull_audio_state();
    assert_eq!(app.tuner.reading, None);
}

#[test]
fn calibration_rocker_bounds() {
    let mut app = Tm2077App::new(&Settings { a4_mhz: Some(480_000), ..Settings::default() });
    app.tuner.calib_up();
    assert_eq!(app.tuner.a4_mhz, 480_000);
    app.tuner.calib_down();
    assert_eq!(app.tuner.a4_mhz, 479_000);
    app.tuner.a4_mhz = 410_500;
    app.tuner.calib_down();
    assert_eq!(app.tuner.a4_mhz, 410_000);
}

#[test]
fn held_rocker_repeats_after_a_delay() {
    let mut h = HoldRepeat::new();
    // A press that started elsewhere never fires.
    assert!(!h.fire(true, false, 0));
    // Press on the button: fires at once.
    assert!(h.fire(true, true, 1_000_000));
    // Held, but within the delay: quiet.
    assert!(!h.fire(true, true, 1_200_000));
    assert!(!h.fire(true, false, 1_349_999));
    // Past the delay: fires, then once per interval.
    assert!(h.fire(true, false, 1_350_000));
    assert!(!h.fire(true, false, 1_380_000));
    assert!(h.fire(true, false, 1_400_000));
    // Release clears the hold; the next press fires at once again.
    assert!(!h.fire(false, false, 1_500_000));
    assert_eq!(h.hold, None);
    assert!(h.fire(true, true, 1_600_000));
}

#[test]
fn saved_settings_restore_the_same_device() {
    let mut app = Tm2077App::new(&Settings::default());
    app.metronome.bpm = 187;
    app.metronome.beats_per_bar = 0;
    app.tuner.a4_mhz = 415_000;
    app.tuner.scale = Scale::QuarterTone;
    app.tuner.accidentals = Accidentals::Mixed;
    app.tuner.transpose = Transposition::F;
    app.metronome.graduated = true;
    app.metronome.sound = Sound::Mechanical;
    app.theme = Theme::Light;
    app.last_on = (true, false);
    let saved = app.settings();
    let back = Tm2077App::new(&saved);
    assert_eq!(back.settings(), saved);
    assert_eq!(back.metronome.bpm, 187);
    assert_eq!(back.metronome.beats_per_bar, 0);
    assert_eq!(back.tuner.a4_mhz, 415_000);
    assert_eq!(back.last_on, (true, false));
    assert_eq!(back.tuner.accidentals, Accidentals::Mixed);
}

#[test]
fn tapped_tempo_stays_in_bounds() {
    for &(span, n) in &[(1u64, 4usize), (10_000_000, 2), (400_000, 3), (5, 2)] {
        let taps: Vec<u64> = (0..n as u64).map(|i| 1_000 + i * span).collect();
        let bpm = tapped_bpm(&PVector::from_slice(&taps)).unwrap();
        assert!((30..=300).contains(&bpm));
    }
}

#[test]
fn needle_bands_follow_the_running_instruments() {
    let none = needle_bands(false, false);
    assert!(!none.visible);
    let tuner = needle_bands(true, false);
    assert!(tuner.visible && !tuner.split_gap);
    assert_eq!((tuner.top, tuner.bottom), (NeedleSource::Tuner, NeedleSource::Tuner));
    let metro = needle_bands(false, true);
    assert_eq!((metro.top, metro.bottom), (NeedleSource::Metronome, NeedleSource::Metronome));
    let both = needle_bands(true, true);
    assert!(both.visible && both.split_gap);
    assert_eq!((both.top, both.bottom), (NeedleSource::Tuner, NeedleSource::Metronome));
}

#[test]
fn settings_popup_closes_on_cross_escape_or_outside_click() {
    let mut app = Tm2077App::new(&Settings::default());
    app.settings_open = true;
    // The opening click lands outside but does not close it.
    app.close_settings(false, false, false, true);
    assert!(app.settings_open);
    app.close_settings(false, false, true, false);
    assert!(app.settings_open);
    app.close_settings(false, false, true, true);
    assert!(!app.settings_open);
    app.settings_open = true;
    app.close_settings(false, true, false, false);
    assert!(!app.settings_open);
    app.settings_open = true;
    app.close_settings(true, false, false, false);
    assert!(!app.settings_open);
}

#[test]
fn beat_counter_wraps_modulo_two_to_the_thirty_two() {
    let mut c = BeatClock::new();
    c.start_buffer(true);
    for n in 1..=5u32 {
        c.on_beat(Sound::Electronic, 4);
        assert_eq!(c.tick, n);
    }
    c.tick = u32::MAX - 1;
    c.on_beat(Sound::Electronic, 4);
    assert_eq!(c.tick, u32::MAX);
    c.on_beat(Sound::Electronic, 4);
    assert_eq!(c.tick, 0);
    assert_eq!(Settings::default().accidentals, Accidentals::Sharps);
}
