use tm2077::note::{Accidental, Name, Note, NoteReading, Scale, Transposition};

/// The concert pitch of `freq` in millicents above A4 = 440 Hz, as the app
/// measures it before asking the library for a reading.
fn offset(freq: f32) -> i32 {
    (1_200_000.0 * (freq as f64 / 440.0).log2()).round() as i32
}

fn reading(freq: f32, scale: Scale, transpose: Transposition) -> NoteReading {
    NoteReading::from_pitch((freq as f64 * 1000.0).round() as u64, offset(freq), scale, transpose)
}

fn note(name: Name, accidental: Option<Accidental>) -> Note {
    Note { name, accidental }
}

#[test]
fn a4_is_exact() {
    let r = reading(440.0, Scale::Chromatic, Transposition::Concert);
    assert_eq!(r.note, note(Name::A, None));
    assert_eq!(r.octave, 4);
    assert!(r.millicents.abs() < 10);
    assert!(r.in_tune());
}

#[test]
fn middle_c() {
    let r = reading(261.63, Scale::Chromatic, Transposition::Concert);
    assert_eq!(r.note, note(Name::C, None));
    assert_eq!(r.octave, 4);
    assert!(r.millicents.abs() < 1_000);
}

#[test]
fn slightly_flat() {
    // ~30 cents flat of A4.
    let f = 440.0 * 2f32.powf(-30.0 / 1200.0);
    let r = reading(f, Scale::Chromatic, Transposition::Concert);
    assert_eq!(r.note, note(Name::A, None));
    assert!(r.millicents < -25_000 && r.millicents > -35_000);
    assert!(!r.in_tune());
}

#[test]
fn guitar_keeps_string_notes() {
    // A2 (110 Hz) is an open string — snaps to A, in tune.
    let r = reading(110.0, Scale::Guitar, Transposition::Concert);
    assert_eq!(r.note, note(Name::A, None));
    assert_eq!(r.octave, 2);
    assert!(r.millicents.abs() < 1_000);
}

#[test]
fn guitar_snaps_c_to_b() {
    // C4 isn't a string; the nearest string note is B (a semitone below).
    let r = reading(261.63, Scale::Guitar, Transposition::Concert);
    assert_eq!(r.note, note(Name::B, None));
    assert!((r.millicents - 100_000).abs() < 2_000);
}

#[test]
fn quarter_tone_half_sharp() {
    // +50 cents above A4 → A half-sharp.
    let f = 440.0 * 2f32.powf(0.5 / 12.0);
    let r = reading(f, Scale::QuarterTone, Transposition::Concert);
    assert_eq!(r.note, note(Name::A, Some(Accidental::Demisharp)));
    assert!(r.millicents.abs() < 1_000);
}

#[test]
fn quarter_tone_half_flat() {
    // Quarter tone between A# and B → B half-flat.
    let f = 440.0 * 2f32.powf(1.5 / 12.0);
    let r = reading(f, Scale::QuarterTone, Transposition::Concert);
    assert_eq!(r.note, note(Name::B, Some(Accidental::Demiflat)));
    assert!(r.millicents.abs() < 1_000);
}

#[test]
fn quarter_tone_octave_follows_letter() {
    // B half-sharp (~508 Hz) is a raised B4. Its pitch rounds up across the
    // B/C octave boundary, but the octave must track the *letter*: B4, not B5.
    let f = 440.0 * 2f32.powf(2.5 / 12.0);
    let r = reading(f, Scale::QuarterTone, Transposition::Concert);
    assert_eq!(r.note, note(Name::B, Some(Accidental::Demisharp)));
    assert_eq!(r.octave, 4);
}

#[test]
fn bflat_transposes_up_a_tone() {
    // Concert A4 on a B♭ instrument reads as written B4.
    let r = reading(440.0, Scale::Chromatic, Transposition::BFlat);
    assert_eq!(r.note, note(Name::B, None));
    assert_eq!(r.octave, 4);
    assert!(r.millicents.abs() < 10);
}

#[test]
fn chromatic_is_sharp_only() {
    // Whatever the pitch, Chromatic never spells a flat or demi-accidental.
    let f = 440.0 * 2f32.powf(-4.5 / 12.0);
    let r = reading(f, Scale::Chromatic, Transposition::Concert);
    assert!(matches!(r.note.accidental, None | Some(Accidental::Sharp)));
}

#[test]
fn exact_pitches_on_integer_offsets() {
    // A4 itself.
    let r = NoteReading::from_pitch(440_000, 0, Scale::Chromatic, Transposition::Concert);
    assert_eq!(r, NoteReading { freq_mhz: 440_000, note: note(Name::A, None), octave: 4, millicents: 0 });
    // Middle C is 9 semitones below A4.
    let r = NoteReading::from_pitch(0, -900_000, Scale::Chromatic, Transposition::Concert);
    assert_eq!((r.note, r.octave, r.millicents), (note(Name::C, None), 4, 0));
    // B3 is ten semitones below A4.
    let r = NoteReading::from_pitch(0, -1_000_000, Scale::Chromatic, Transposition::Concert);
    assert_eq!((r.note, r.octave, r.millicents), (note(Name::B, None), 3, 0));
    // G#4 is a semitone below A4; G#4 + 49 cents still reads G#.
    let r = NoteReading::from_pitch(0, -51_000, Scale::Chromatic, Transposition::Concert);
    assert_eq!((r.note, r.octave, r.millicents), (note(Name::G, Some(Accidental::Sharp)), 4, 49_000));
    // Exactly halfway between G#4 and A4: the earlier degree in the table (A) wins.
    let r = NoteReading::from_pitch(0, -50_000, Scale::Chromatic, Transposition::Concert);
    assert_eq!((r.note, r.octave, r.millicents), (note(Name::A, None), 4, -50_000));
    // A5 one octave up, A0 four octaves down.
    let r = NoteReading::from_pitch(0, 1_200_000, Scale::Chromatic, Transposition::Concert);
    assert_eq!((r.note, r.octave), (note(Name::A, None), 5));
    let r = NoteReading::from_pitch(0, -4_800_000, Scale::Chromatic, Transposition::Concert);
    assert_eq!((r.note, r.octave), (note(Name::A, None), 0));
}

#[test]
fn transpositions_show_the_written_note() {
    // Concert A4 read by E♭ and F instruments: F#5 and E5.
    let r = NoteReading::from_pitch(0, 0, Scale::Chromatic, Transposition::EFlat);
    assert_eq!((r.note, r.octave), (note(Name::F, Some(Accidental::Sharp)), 5));
    let r = NoteReading::from_pitch(0, 0, Scale::Chromatic, Transposition::F);
    assert_eq!((r.note, r.octave), (note(Name::E, None), 5));
    // Same as the concert reading of the raised pitch.
    for x in [-2_345_678, -51_000, 0, 12_345, 999_999] {
        for t in [Transposition::BFlat, Transposition::EFlat, Transposition::F] {
            let written = x + t.semitones() as i32 * 100_000;
            let a = NoteReading::from_pitch(7, x, Scale::QuarterTone, t);
            let b = NoteReading::from_pitch(7, written, Scale::QuarterTone, Transposition::Concert);
            assert_eq!(a, b);
        }
    }
}

#[test]
fn readings_stay_within_half_a_step() {
    let mut x: i32 = -6_000_000;
    while x < 6_000_000 {
        let c = NoteReading::from_pitch(0, x, Scale::Chromatic, Transposition::Concert);
        assert!(c.millicents.abs() <= 50_000);
        assert!(matches!(c.note.accidental, None | Some(Accidental::Sharp)));
        let q = NoteReading::from_pitch(0, x, Scale::QuarterTone, Transposition::Concert);
        assert!(q.millicents.abs() <= 25_000);
        let g = NoteReading::from_pitch(0, x, Scale::Guitar, Transposition::Concert);
        assert!(g.note.accidental.is_none());
        assert!(g.millicents.abs() <= 150_000);
        x += 7_919;
    }
}

#[test]
fn in_tune_tolerance_is_four_cents() {
    let r = NoteReading::from_pitch(0, 4_000, Scale::Chromatic, Transposition::Concert);
    assert!(r.in_tune());
    let r = NoteReading::from_pitch(0, -4_000, Scale::Chromatic, Transposition::Concert);
    assert!(r.in_tune());
    let r = NoteReading::from_pitch(0, 4_001, Scale::Chromatic, Transposition::Concert);
    assert!(!r.in_tune());
}

#[test]
fn scale_tables() {
    assert_eq!(Name::A.natural(), note(Name::A, None));
    assert_eq!(Name::C.sharp(), note(Name::C, Some(Accidental::Sharp)));
    assert_eq!(Name::D.dsharp(), note(Name::D, Some(Accidental::Demisharp)));
    assert_eq!(Name::E.dflat(), note(Name::E, Some(Accidental::Demiflat)));
    let d = tm2077::note::degree(Name::A.dflat());
    assert_eq!(d.quarter_tones, 23);
    let d = tm2077::note::degree(Name::C.natural());
    assert_eq!(d.quarter_tones, 6);
    assert_eq!(Transposition::BFlat.semitones(), 2);
    assert_eq!(Transposition::EFlat.semitones(), 9);
    assert_eq!(Transposition::F.semitones(), 7);
    assert_eq!(Transposition::Concert.semitones(), 0);
    assert_eq!(Scale::default(), Scale::Chromatic);
    assert_eq!(Transposition::default(), Transposition::Concert);
}

#[test]
fn an_octave_up_reads_the_same_note_one_octave_higher() {
    for &scale in &[Scale::Chromatic, Scale::QuarterTone, Scale::Guitar] {
        for &off in &[-2_345_678i32, -600_000, -12_345, 0, 37_500, 612_000, 1_111_111] {
            let lo = NoteReading::from_pitch(1, off, scale, Transposition::Concert);
            let hi = NoteReading::from_pitch(1, off + 1_200_000, scale, Transposition::Concert);
            assert_eq!(hi.note, lo.note);
            assert_eq!(hi.millicents, lo.millicents);
            assert_eq!(hi.octave, lo.octave + 1);
        }
    }
}

#[test]
fn the_reference_reads_a4_on_every_scale() {
    for &scale in &[Scale::Chromatic, Scale::QuarterTone, Scale::Guitar] {
        let r = NoteReading::from_pitch(440_000, 0, scale, Transposition::Concert);
        assert_eq!(r.note, note(Name::A, None));
        assert_eq!(r.octave, 4);
        assert_eq!(r.millicents, 0);
        assert_eq!(r.freq_mhz, 440_000);
    }
}

#[test]
fn several_octaves_up_read_the_same_note() {
    for &scale in &[Scale::Chromatic, Scale::QuarterTone, Scale::Guitar] {
        let lo = NoteReading::from_pitch(1, -3_456_789, scale, Transposition::BFlat);
        for k in 0..5i32 {
            let hi = NoteReading::from_pitch(1, -3_456_789 + k * 1_200_000, scale, Transposition::BFlat);
            assert_eq!(hi.note, lo.note);
            assert_eq!(hi.millicents, lo.millicents);
            assert_eq!(hi.octave, lo.octave + k);
        }
    }
}
