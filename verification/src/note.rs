//! Musical notation and pitch mapping. A `Note` is a natural name plus an
//! optional accidental (including quarter-tone demi-accidentals). A `Scale` is a
//! list of spelled degrees, each at a whole number of quarter tones above the
//! tonic (natural A). A pitch, measured in millicents relative to the `a4`
//! reference, snaps to the nearest degree in any octave; natural A in octave 4
//! sounds at `a4`.
//!
//! Units: one octave is 1 200 000 millicents, one semitone 100 000 and one
//! quarter tone 50 000.

use vstd::prelude::*;
use vstd::arithmetic::div_mod::{
    lemma_fundamental_div_mod, lemma_fundamental_div_mod_converse_div,
    lemma_fundamental_div_mod_converse_mod,
};

use crate::pvec::{degree_items, degrees_get, degrees_len, degrees_new, degrees_push_back, PVector};

verus! {

/// Millicents in one octave.
pub const OCTAVE_MC: i64 = 1_200_000;

/// Millicents in one semitone.
pub const SEMITONE_MC: i64 = 100_000;

/// Millicents in one quarter tone.
pub const QUARTER_TONE_MC: i64 = 50_000;

/// In-tune tolerance in millicents (4 cents). The single source of truth for
/// both [`NoteReading::in_tune`] and the flat / in-tune / sharp LEDs.
pub const IN_TUNE_MILLICENTS: i32 = 4_000;

/// One of the seven natural note names.
#[derive(Clone, Copy, Debug, PartialEq, Eq, Structural)]
pub enum Name {
    C,
    D,
    E,
    F,
    G,
    A,
    B,
}

/// An accidental applied to a natural name. Demiflat/Demisharp are the
/// quarter-tone (24-TET) accidentals.
#[derive(Clone, Copy, Debug, PartialEq, Eq, Structural)]
pub enum Accidental {
    Flat,
    Demiflat,
    Demisharp,
    Sharp,
}

/// How the tuner's display prefers to spell the black keys: with sharps,
/// with flats, or mixed. A saved preference of the device.
#[derive(Clone, Copy, Debug, PartialEq, Eq, Structural)]
pub enum Accidentals {
    Sharps,
    Flats,
    Mixed,
}

impl Default for Accidentals {
    fn default() -> (a: Accidentals)
        ensures
            a == Accidentals::Sharps,
    {
        Accidentals::Sharps
    }
}

/// A spelled note: a natural name plus an optional accidental.
#[derive(Clone, Copy, Debug, PartialEq, Eq, Structural)]
pub struct Note {
    pub name: Name,
    pub accidental: Option<Accidental>,
}

/// Quarter tones of a natural name above C within an octave (C = 0 … B = 22).
pub open spec fn name_qt_from_c(name: Name) -> int {
    match name {
        Name::C => 0,
        Name::D => 4,
        Name::E => 8,
        Name::F => 10,
        Name::G => 14,
        Name::A => 18,
        Name::B => 22,
    }
}

/// Quarter-tone offset an accidental applies to its natural name.
pub open spec fn accidental_qt(acc: Accidental) -> int {
    match acc {
        Accidental::Flat => -2,
        Accidental::Demiflat => -1,
        Accidental::Demisharp => 1,
        Accidental::Sharp => 2,
    }
}

/// A note's pitch in quarter tones above natural A, reduced into `[0, 24)`.
pub open spec fn note_qt_from_a(note: Note) -> int {
    let acc = match note.accidental {
        Some(a) => accidental_qt(a),
        None => 0,
    };
    (name_qt_from_c(note.name) - name_qt_from_c(Name::A) + acc) % 24
}

impl Name {
    /// Quarter tones above C within an octave (C = 0 … B = 22).
    fn quarter_tones_from_c(self) -> (q: u8)
        ensures
            q == name_qt_from_c(self),
    {
        match self {
            Name::C => 0,
            Name::D => 4,
            Name::E => 8,
            Name::F => 10,
            Name::G => 14,
            Name::A => 18,
            Name::B => 22,
        }
    }

    /// The natural note of this name.
    pub fn natural(self) -> (n: Note)
        ensures
            n == (Note { name: self, accidental: None }),
    {
        Note { name: self, accidental: None }
    }

    /// This name raised by a sharp.
    pub fn sharp(self) -> (n: Note)
        ensures
            n == (Note { name: self, accidental: Some(Accidental::Sharp) }),
    {
        Note { name: self, accidental: Some(Accidental::Sharp) }
    }

    /// This name raised by a demisharp (a quarter tone).
    pub fn dsharp(self) -> (n: Note)
        ensures
            n == (Note { name: self, accidental: Some(Accidental::Demisharp) }),
    {
        Note { name: self, accidental: Some(Accidental::Demisharp) }
    }

    /// This name lowered by a demiflat (a quarter tone).
    pub fn dflat(self) -> (n: Note)
        ensures
            n == (Note { name: self, accidental: Some(Accidental::Demiflat) }),
    {
        Note { name: self, accidental: Some(Accidental::Demiflat) }
    }
}

impl Accidental {
    /// Quarter-tone offset the accidental applies to its natural name.
    fn quarter_tones(self) -> (q: i8)
        ensures
            q == accidental_qt(self),
    {
        match self {
            Accidental::Flat => -2,
            Accidental::Demiflat => -1,
            Accidental::Demisharp => 1,
            Accidental::Sharp => 2,
        }
    }
}

impl Note {
    /// This note's pitch in quarter tones above natural A, reduced into `[0, 24)`.
    fn quarter_tones_from_a(self) -> (q: u8)
        ensures
            q == note_qt_from_a(self),
            q < 24,
    {
        let acc: i8 = match self.accidental {
            Some(a) => a.quarter_tones(),
            None => 0,
        };
        let v: i8 = self.name.quarter_tones_from_c() as i8 - 18 + acc;
        if v < 0 {
            (v + 24) as u8
        } else {
            v as u8
        }
    }
}

/// One scale degree: a spelled note and its pitch above the tonic (natural A)
/// in quarter tones; its frequency ratio to the tonic is `2^(quarter_tones/24)`.
#[derive(Clone, Copy, Debug, PartialEq, Eq, Structural)]
pub struct Degree {
    pub note: Note,
    pub quarter_tones: u8,
}

/// The degree whose interval is the 12-/24-TET interval of its spelled note.
pub open spec fn spec_degree(note: Note) -> Degree {
    Degree { note, quarter_tones: note_qt_from_a(note) as u8 }
}

/// A degree whose interval is the 12-/24-TET interval of its spelled note.
pub fn degree(note: Note) -> (d: Degree)
    ensures
        d == spec_degree(note),
{
    Degree { note, quarter_tones: note.quarter_tones_from_a() }
}

/// Which set of pitches the tuner snaps a reading to.
#[derive(Clone, Copy, Debug, PartialEq, Eq, Structural)]
pub enum Scale {
    /// All twelve semitones (12-TET), spelled with sharps only.
    Chromatic,
    /// Standard guitar open strings only: E A D G B.
    Guitar,
    /// Quarter tones (24-TET).
    QuarterTone,
}

impl Default for Scale {
    fn default() -> (s: Scale)
        ensures
            s == Scale::Chromatic,
    {
        Scale::Chromatic
    }
}

/// A natural note.
pub open spec fn natural_note(name: Name) -> Note {
    Note { name, accidental: None }
}

/// A note with an accidental.
pub open spec fn acc(name: Name, a: Accidental) -> Note {
    Note { name, accidental: Some(a) }
}

/// The spelled notes of each scale, ascending from natural A within one octave.
pub open spec fn scale_notes(scale: Scale) -> Seq<Note> {
    match scale {
        Scale::Chromatic => seq![
            natural_note(Name::A), acc(Name::A, Accidental::Sharp), natural_note(Name::B), natural_note(Name::C),
            acc(Name::C, Accidental::Sharp), natural_note(Name::D), acc(Name::D, Accidental::Sharp),
            natural_note(Name::E), natural_note(Name::F), acc(Name::F, Accidental::Sharp), natural_note(Name::G),
            acc(Name::G, Accidental::Sharp),
        ],
        Scale::Guitar => seq![natural_note(Name::A), natural_note(Name::B), natural_note(Name::D), natural_note(Name::E), natural_note(Name::G)],
        Scale::QuarterTone => seq![
            natural_note(Name::A), acc(Name::A, Accidental::Demisharp), acc(Name::A, Accidental::Sharp),
            acc(Name::B, Accidental::Demiflat), natural_note(Name::B), acc(Name::B, Accidental::Demisharp),
            natural_note(Name::C), acc(Name::C, Accidental::Demisharp), acc(Name::C, Accidental::Sharp),
            acc(Name::D, Accidental::Demiflat), natural_note(Name::D), acc(Name::D, Accidental::Demisharp),
            acc(Name::D, Accidental::Sharp), acc(Name::E, Accidental::Demiflat), natural_note(Name::E),
            acc(Name::E, Accidental::Demisharp), natural_note(Name::F), acc(Name::F, Accidental::Demisharp),
            acc(Name::F, Accidental::Sharp), acc(Name::G, Accidental::Demiflat), natural_note(Name::G),
            acc(Name::G, Accidental::Demisharp), acc(Name::G, Accidental::Sharp),
            acc(Name::A, Accidental::Demiflat),
        ],
    }
}

/// The degrees of each scale, ascending from natural A within one octave.
pub open spec fn scale_degrees(scale: Scale) -> Seq<Degree> {
    scale_notes(scale).map_values(|n: Note| spec_degree(n))
}

impl Scale {
    /// The scale's degrees, ascending within one octave, each with its spelled
    /// note and interval above natural A. Chromatic is sharp-only, Guitar is
    /// naturals, QuarterTone uses demi-accidentals.
    pub fn notes(self) -> (v: PVector<Degree>)
        ensures
            degree_items(v) == scale_degrees(self),
    {
        let notes: Vec<Note> = match self {
            Scale::Chromatic => vec![
                Name::A.natural(),
                Name::A.sharp(),
                Name::B.natural(),
                Name::C.natural(),
                Name::C.sharp(),
                Name::D.natural(),
                Name::D.sharp(),
                Name::E.natural(),
                Name::F.natural(),
                Name::F.sharp(),
                Name::G.natural(),
                Name::G.sharp(),
            ],
            Scale::Guitar => vec![Name::A.natural(), Name::B.natural(), Name::D.natural(), Name::E.natural(), Name::G.natural()],
            Scale::QuarterTone => vec![
                Name::A.natural(),
                Name::A.dsharp(),
                Name::A.sharp(),
                Name::B.dflat(),
                Name::B.natural(),
                Name::B.dsharp(),
                Name::C.natural(),
                Name::C.dsharp(),
                Name::C.sharp(),
                Name::D.dflat(),
                Name::D.natural(),
                Name::D.dsharp(),
                Name::D.sharp(),
                Name::E.dflat(),
                Name::E.natural(),
                Name::E.dsharp(),
                Name::F.natural(),
                Name::F.dsharp(),
                Name::F.sharp(),
                Name::G.dflat(),
                Name::G.natural(),
                Name::G.dsharp(),
                Name::G.sharp(),
                Name::A.dflat(),
            ],
        };
        assert(notes@ == scale_notes(self));
        let mut v = degrees_new();
        let mut i: usize = 0;
        while i < notes.len()
            invariant
                notes@ == scale_notes(self),
                i <= notes@.len(),
                degree_items(v) == scale_notes(self).subrange(0, i as int).map_values(
                    |n: Note| spec_degree(n),
                ),
            decreases notes@.len() - i,
        {
            degrees_push_back(&mut v, degree(notes[i]));
            assert(scale_notes(self).subrange(0, i + 1).map_values(|n: Note| spec_degree(n))
                == scale_notes(self).subrange(0, i as int).map_values(|n: Note| spec_degree(n)).push(
                spec_degree(notes@[i as int]),
            ));
            i = i + 1;
        }
        assert(scale_notes(self).subrange(0, notes@.len() as int) == scale_notes(self));
        v
    }
}

/// Instrument transposition: the tuner shows the *written* note for a
/// transposing instrument (written = concert pitch + this many semitones).
#[derive(Clone, Copy, Debug, PartialEq, Eq, Structural)]
pub enum Transposition {
    /// Concert pitch (C instruments), no transposition.
    Concert,
    /// B♭ instruments (clarinet, trumpet, tenor/soprano sax): +2.
    BFlat,
    /// E♭ instruments (alto/baritone sax): +9.
    EFlat,
    /// F instruments (French horn, English horn): +7.
    F,
}

impl Default for Transposition {
    fn default() -> (t: Transposition)
        ensures
            t == Transposition::Concert,
    {
        Transposition::Concert
    }
}

/// Semitones a transposition adds to the concert pitch.
pub open spec fn transposition_semitones(t: Transposition) -> int {
    match t {
        Transposition::Concert => 0,
        Transposition::BFlat => 2,
        Transposition::EFlat => 9,
        Transposition::F => 7,
    }
}

impl Transposition {
    /// Semitones this transposition adds to the concert pitch.
    pub fn semitones(self) -> (s: i8)
        ensures
            s == transposition_semitones(self),
    {
        match self {
            Transposition::Concert => 0,
            Transposition::BFlat => 2,
            Transposition::EFlat => 9,
            Transposition::F => 7,
        }
    }
}


/// `a / b` rounded to the nearest integer, halves away from zero (the rounding
/// of `f64::round`), for `b > 0`.
pub open spec fn round_div(a: int, b: int) -> int {
    if a >= 0 {
        (2 * a + b) / (2 * b)
    } else {
        -((-2 * a + b) / (2 * b))
    }
}

/// The octave copy of the interval `rel` (millicents above A) that lies
/// nearest to the pitch `x` (millicents above A4).
pub open spec fn nearest_copy(x: int, rel: int) -> int {
    rel + OCTAVE_MC * round_div(x - rel, OCTAVE_MC as int)
}

/// Distance, in millicents, from `x` to the nearest octave copy of `rel`.
pub open spec fn copy_distance(x: int, rel: int) -> int {
    let d = x - nearest_copy(x, rel);
    if d >= 0 {
        d
    } else {
        -d
    }
}

/// A degree's interval above natural A, in millicents.
pub open spec fn degree_mc(d: Degree) -> int {
    d.quarter_tones * QUARTER_TONE_MC
}

/// The index of the first degree, among the first `n`, whose nearest octave
/// copy is closest to `x` (ties keep the earlier degree).
pub open spec fn nearest_in_prefix(degs: Seq<Degree>, x: int, n: nat) -> int
    decreases n,
{
    if n <= 1 {
        0
    } else {
        let b = nearest_in_prefix(degs, x, (n - 1) as nat);
        if copy_distance(x, degree_mc(degs[n - 1])) < copy_distance(x, degree_mc(degs[b])) {
            n - 1
        } else {
            b
        }
    }
}

/// The index of the degree of `scale` nearest to `x`, first on ties.
pub open spec fn nearest_degree(scale: Scale, x: int) -> int {
    nearest_in_prefix(scale_degrees(scale), x, scale_degrees(scale).len())
}

/// A natural name's interval above natural A within an octave, in millicents.
pub open spec fn natural_mc(name: Name) -> int {
    ((name_qt_from_c(name) - name_qt_from_c(Name::A)) % 24) * QUARTER_TONE_MC
}

/// Scientific octave of a note sounding at `pos`: scientific octaves change at
/// C, so the octave follows the *letter*. It is taken from the nearest octave
/// copy of the natural name (a whole semitone), then from its MIDI number
/// (A4 = 69).
pub open spec fn letter_octave(name: Name, pos: int) -> int {
    let pos_nat = nearest_copy(pos, natural_mc(name));
    (69 + pos_nat / (SEMITONE_MC as int)) / 12 - 1
}

/// The reading of the concert pitch `offset` (millicents above `a4`) on the
/// given scale and transposition: the written pitch snaps to the nearest
/// degree in any octave; the reading keeps that degree's note, the letter's
/// octave and the deviation from the degree.
pub open spec fn spec_from_pitch(
    freq_mhz: u64,
    offset: int,
    scale: Scale,
    transpose: Transposition,
) -> NoteReading {
    let x = offset + transposition_semitones(transpose) * SEMITONE_MC;
    let d = scale_degrees(scale)[nearest_degree(scale, x)];
    let pos = nearest_copy(x, degree_mc(d));
    NoteReading {
        freq_mhz,
        note: d.note,
        octave: letter_octave(d.note.name, pos) as i32,
        millicents: (x - pos) as i32,
    }
}

/// A pitch reading derived from a detected frequency.
#[derive(Clone, Copy, Debug, PartialEq, Eq, Structural)]
pub struct NoteReading {
    /// The raw detected frequency, in millihertz.
    pub freq_mhz: u64,
    /// The nearest scale degree's spelled note.
    pub note: Note,
    /// Scientific-pitch octave number (A4 = octave 4).
    pub octave: i32,
    /// Deviation from that degree's pitch, in millicents.
    pub millicents: i32,
}

/// `round_div` keeps its quotient within half a divisor of `a`.
proof fn lemma_round_div_bounds(a: int, b: int)
    requires
        b > 0,
    ensures
        -b <= 2 * (a - b * round_div(a, b)) <= b,
{
    if a >= 0 {
        let q = (2 * a + b) / (2 * b);
        lemma_fundamental_div_mod(2 * a + b, 2 * b);
        assert(0 <= (2 * a + b) % (2 * b) < 2 * b);
        assert(2 * a + b == (2 * b) * q + (2 * a + b) % (2 * b));
        assert((2 * b) * q == 2 * (b * q)) by (nonlinear_arith);
    } else {
        let q = (-2 * a + b) / (2 * b);
        lemma_fundamental_div_mod(-2 * a + b, 2 * b);
        assert(0 <= (-2 * a + b) % (2 * b) < 2 * b);
        assert(-2 * a + b == (2 * b) * q + (-2 * a + b) % (2 * b));
        assert((2 * b) * q == 2 * (b * q)) by (nonlinear_arith);
        assert(b * (-q) == -(b * q)) by (nonlinear_arith);
    }
}

/// The nearest octave copy is no farther from `x` than any other copy.
pub proof fn lemma_nearest_copy_is_nearest(x: int, rel: int, m: int)
    ensures
        copy_distance(x, rel) <= if x - rel - OCTAVE_MC * m >= 0 {
            x - rel - OCTAVE_MC * m
        } else {
            -(x - rel - OCTAVE_MC * m)
        },
        2 * copy_distance(x, rel) <= OCTAVE_MC,
{
    let y = x - rel;
    let q = round_div(y, OCTAVE_MC as int);
    lemma_round_div_bounds(y, OCTAVE_MC as int);
    let e = y - OCTAVE_MC * q;
    assert(x - nearest_copy(x, rel) == e);
    let f = y - OCTAVE_MC * m;
    assert(f == e + OCTAVE_MC * (q - m)) by (nonlinear_arith)
        requires
            f == y - OCTAVE_MC * m,
            e == y - OCTAVE_MC * q,
    ;
    if q != m {
        assert(OCTAVE_MC * (q - m) >= OCTAVE_MC || OCTAVE_MC * (q - m) <= -OCTAVE_MC) by (
        nonlinear_arith)
            requires
                q != m,
        ;
    }
}

proof fn lemma_nearest_in_prefix_range(degs: Seq<Degree>, x: int, n: nat)
    requires
        n >= 1,
    ensures
        0 <= nearest_in_prefix(degs, x, n) < n,
    decreases n,
{
    if n > 1 {
        lemma_nearest_in_prefix_range(degs, x, (n - 1) as nat);
    }
}

/// The chosen degree is at least as near as every degree of the prefix, and
/// strictly nearer than every degree before it.
pub proof fn lemma_nearest_in_prefix_is_first_nearest(degs: Seq<Degree>, x: int, n: nat)
    requires
        n >= 1,
    ensures
        0 <= nearest_in_prefix(degs, x, n) < n,
        forall|j: int|
            0 <= j < n ==> copy_distance(x, degree_mc(degs[nearest_in_prefix(degs, x, n)]))
                <= copy_distance(x, degree_mc(#[trigger] degs[j])),
        forall|j: int|
            0 <= j < nearest_in_prefix(degs, x, n) ==> copy_distance(
                x,
                degree_mc(degs[nearest_in_prefix(degs, x, n)]),
            ) < copy_distance(x, degree_mc(#[trigger] degs[j])),
    decreases n,
{
    lemma_nearest_in_prefix_range(degs, x, n);
    if n > 1 {
        lemma_nearest_in_prefix_is_first_nearest(degs, x, (n - 1) as nat);
    }
}


/// Every degree of a scale lies within the octave above natural A.
proof fn lemma_degrees_within_octave(scale: Scale)
    ensures
        forall|j: int|
            0 <= j < scale_degrees(scale).len() ==> (#[trigger] scale_degrees(scale)[j]).quarter_tones
                < 24,
{
    assert forall|j: int| 0 <= j < scale_degrees(scale).len() implies (
    #[trigger] scale_degrees(scale)[j]).quarter_tones < 24 by {
        let n = scale_notes(scale)[j];
        assert(0 <= note_qt_from_a(n) < 24);
    }
}

/// `round_div(a, b)` in machine integers.
fn round_div_exec(a: i64, b: i64) -> (q: i64)
    requires
        0 < b <= 10_000_000,
        -10_000_000_000 <= a <= 10_000_000_000,
    ensures
        q == round_div(a as int, b as int),
{
    proof {
        lemma_round_div_bounds(a as int, b as int);
    }
    if a >= 0 {
        let n: u64 = (2 * a + b) as u64;
        let d: u64 = (2 * b) as u64;
        (n / d) as i64
    } else {
        let n: u64 = (-2 * a + b) as u64;
        let d: u64 = (2 * b) as u64;
        -((n / d) as i64)
    }
}

/// The nearest octave copy of `rel` to `x`, with the octave count of that copy.
fn nearest_copy_exec(x: i64, rel: i64) -> (r: (i64, i64))
    requires
        -5_000_000_000 <= x <= 5_000_000_000,
        0 <= rel < OCTAVE_MC,
    ensures
        r.1 == round_div(x - rel, OCTAVE_MC as int),
        r.0 == nearest_copy(x as int, rel as int),
        r.0 == rel + OCTAVE_MC * r.1,
        -600_000 <= x - r.0 <= 600_000,
        -10_000 <= r.1 <= 10_000,
{
    let q = round_div_exec(x - rel, OCTAVE_MC);
    proof {
        lemma_round_div_bounds(x - rel, OCTAVE_MC as int);
        assert(-OCTAVE_MC <= 2 * ((x - rel) - OCTAVE_MC * q) <= OCTAVE_MC);
        assert(-10_000 <= q <= 10_000) by (nonlinear_arith)
            requires
                -OCTAVE_MC <= 2 * ((x - rel) - OCTAVE_MC * q) <= OCTAVE_MC,
                -5_000_000_000 <= x <= 5_000_000_000,
                0 <= rel < OCTAVE_MC,
        ;
    }
    (rel + OCTAVE_MC * q, q)
}

/// The scientific octave of a note named `name` sounding at `pos`.
fn letter_octave_exec(name: Name, pos: i64) -> (octave: i32)
    requires
        -4_000_000_000 <= pos <= 4_000_000_000,
    ensures
        octave == letter_octave(name, pos as int),
{
    let v: i64 = name.quarter_tones_from_c() as i64 - 18;
    let s: i64 = if v < 0 {
        (v + 24) / 2
    } else {
        v / 2
    };
    let rel_nat: i64 = s * SEMITONE_MC;
    assert(rel_nat == natural_mc(name));
    let (pos_nat, k) = nearest_copy_exec(pos, rel_nat);
    let octave: i64 = k + (69 + s) / 12 - 1;
    proof {
        lemma_fundamental_div_mod_converse_div(pos_nat as int, SEMITONE_MC as int, s + 12 * k, 0);
        assert((pos_nat as int) / (SEMITONE_MC as int) == s + 12 * k);
        lemma_fundamental_div_mod(69 + s, 12);
        lemma_fundamental_div_mod_converse_div(
            69 + s + 12 * k,
            12,
            k + (69 + s) / 12,
            (69 + s) % 12,
        );
    }
    octave as i32
}

impl NoteReading {
    /// Snap a pitch to the nearest degree of `scale`. `offset` is the concert
    /// pitch in millicents above the `a4` reference and `freq_mhz` the detected
    /// frequency it came from; `transpose` makes the reading show the *written*
    /// note of a transposing instrument. Octaves repeat at `2/1`, anchored so
    /// natural A in octave 4 sounds at `a4`.
    pub fn from_pitch(freq_mhz: u64, offset: i32, scale: Scale, transpose: Transposition) -> (r:
        NoteReading)
        ensures
            r == spec_from_pitch(freq_mhz, offset as int, scale, transpose),
    {
        let x: i64 = offset as i64 + transpose.semitones() as i64 * SEMITONE_MC;
        let degs = scale.notes();
        let n = degrees_len(&degs);
        let ghost ds = scale_degrees(scale);
        assert(ds.len() > 0);
        proof {
            lemma_degrees_within_octave(scale);
        }
        let mut best: usize = 0;
        let mut best_pos: i64 = 0;
        let mut best_dist: i64 = 0;
        let mut best_note = Name::A.natural();
        let mut i: usize = 0;
        while i < n
            invariant
                n == ds.len(),
                ds == degree_items(degs),
                forall|j: int| 0 <= j < ds.len() ==> (#[trigger] ds[j]).quarter_tones < 24,
                i <= n,
                -3_000_000_000 <= x <= 3_000_000_000,
                i > 0 ==> {
                    &&& best == nearest_in_prefix(ds, x as int, i as nat)
                    &&& best < i
                    &&& best_note == ds[best as int].note
                    &&& best_pos == nearest_copy(x as int, degree_mc(ds[best as int]))
                    &&& best_dist == copy_distance(x as int, degree_mc(ds[best as int]))
                    &&& -600_000 <= x - best_pos <= 600_000
                },
            decreases n - i,
        {
            match degrees_get(&degs, i) {
                Some(d) => {
                    let (pos, _) = nearest_copy_exec(x, d.quarter_tones as i64 * QUARTER_TONE_MC);
                    let dist: i64 = if x - pos >= 0 {
                        x - pos
                    } else {
                        pos - x
                    };
                    if i == 0 || dist < best_dist {
                        best = i;
                        best_pos = pos;
                        best_dist = dist;
                        best_note = d.note;
                    }
                },
                None => {},
            }
            i = i + 1;
        }
        let octave = letter_octave_exec(best_note.name, best_pos);
        NoteReading {
            freq_mhz,
            note: best_note,
            octave,
            millicents: (x - best_pos) as i32,
        }
    }

    /// True when within a tight tolerance of the target pitch.
    pub fn in_tune(&self) -> (b: bool)
        ensures
            b == (-IN_TUNE_MILLICENTS <= self.millicents <= IN_TUNE_MILLICENTS),
    {
        -IN_TUNE_MILLICENTS <= self.millicents && self.millicents <= IN_TUNE_MILLICENTS
    }
}


/// Absolute value.
pub open spec fn abs_int(v: int) -> int {
    if v >= 0 {
        v
    } else {
        -v
    }
}

/// A reading lies on the nearest degree of its scale: its deviation is no
/// larger than the distance from the written pitch to any degree of the scale
/// in any octave.
pub proof fn lemma_reading_snaps_to_nearest_degree(
    freq_mhz: u64,
    offset: int,
    scale: Scale,
    transpose: Transposition,
    j: int,
    m: int,
)
    requires
        -3_000_000_000 <= offset <= 3_000_000_000,
        0 <= j < scale_degrees(scale).len(),
    ensures
        ({
            let x = offset + transposition_semitones(transpose) * SEMITONE_MC;
            let r = spec_from_pitch(freq_mhz, offset, scale, transpose);
            abs_int(r.millicents as int) <= abs_int(
                x - degree_mc(scale_degrees(scale)[j]) - OCTAVE_MC * m,
            )
        }),
{
    let x = offset + transposition_semitones(transpose) * SEMITONE_MC;
    let ds = scale_degrees(scale);
    lemma_nearest_in_prefix_is_first_nearest(ds, x, ds.len());
    let i = nearest_degree(scale, x);
    let pos = nearest_copy(x, degree_mc(ds[i]));
    lemma_nearest_copy_is_nearest(x, degree_mc(ds[i]), 0);
    lemma_nearest_copy_is_nearest(x, degree_mc(ds[j]), m);
    assert(-600_000 <= x - pos <= 600_000);
}

/// When some degree of the scale, in some octave, lies within `bound` of the
/// written pitch, the reading deviates by at most `bound`.
proof fn lemma_deviation_bounded_by_witness(
    freq_mhz: u64,
    offset: int,
    scale: Scale,
    transpose: Transposition,
    j: int,
    m: int,
    bound: int,
)
    requires
        -3_000_000_000 <= offset <= 3_000_000_000,
        0 <= j < scale_degrees(scale).len(),
        abs_int(
            offset + transposition_semitones(transpose) * SEMITONE_MC - degree_mc(
                scale_degrees(scale)[j],
            ) - OCTAVE_MC * m,
        ) <= bound,
    ensures
        abs_int(spec_from_pitch(freq_mhz, offset, scale, transpose).millicents as int) <= bound,
{
    lemma_reading_snaps_to_nearest_degree(freq_mhz, offset, scale, transpose, j, m);
}

/// The chromatic degrees sit on every semitone above A, in order.
proof fn lemma_chromatic_degrees()
    ensures
        scale_degrees(Scale::Chromatic).len() == 12,
        forall|j: int|
            0 <= j < 12 ==> (#[trigger] scale_degrees(Scale::Chromatic)[j]).quarter_tones == 2 * j,
{
    let ds = scale_degrees(Scale::Chromatic);
    assert forall|j: int| 0 <= j < 12 implies (#[trigger] ds[j]).quarter_tones == 2 * j by {
        if j == 0 {
        } else if j == 1 {
        } else if j == 2 {
        } else if j == 3 {
        } else if j == 4 {
        } else if j == 5 {
        } else if j == 6 {
        } else if j == 7 {
        } else if j == 8 {
        } else if j == 9 {
        } else if j == 10 {
        } else {
        }
    }
}

/// The quarter-tone degrees sit on every quarter tone above A, in order.
proof fn lemma_quarter_tone_degrees()
    ensures
        scale_degrees(Scale::QuarterTone).len() == 24,
        forall|j: int|
            0 <= j < 24 ==> (#[trigger] scale_degrees(Scale::QuarterTone)[j]).quarter_tones == j,
{
    let ds = scale_degrees(Scale::QuarterTone);
    assert forall|j: int| 0 <= j < 24 implies (#[trigger] ds[j]).quarter_tones == j by {
        if j < 6 {
            if j == 0 {
            } else if j == 1 {
            } else if j == 2 {
            } else if j == 3 {
            } else if j == 4 {
            } else {
            }
        } else if j < 12 {
            if j == 6 {
            } else if j == 7 {
            } else if j == 8 {
            } else if j == 9 {
            } else if j == 10 {
            } else {
            }
        } else if j < 18 {
            if j == 12 {
            } else if j == 13 {
            } else if j == 14 {
            } else if j == 15 {
            } else if j == 16 {
            } else {
            }
        } else {
            if j == 18 {
            } else if j == 19 {
            } else if j == 20 {
            } else if j == 21 {
            } else if j == 22 {
            } else {
            }
        }
    }
}

/// A grid of `steps` equal divisions of the octave, `step` millicents apart,
/// always has a point within half a step of `x`: the point `round(x / step)`,
/// written as degree `j` of octave `m`.
proof fn lemma_equal_grid_witness(x: int, step: int, steps: int) -> (jm: (int, int))
    requires
        step > 0,
        steps > 0,
        step * steps == OCTAVE_MC,
    ensures
        0 <= jm.0 < steps,
        2 * abs_int(x - jm.0 * step - OCTAVE_MC * jm.1) <= step,
{
    let s = round_div(x, step);
    lemma_round_div_bounds(x, step);
    let j = s % steps;
    let m = s / steps;
    lemma_fundamental_div_mod(s, steps);
    assert(s == steps * m + j);
    assert(j * step + OCTAVE_MC * m == step * s) by (nonlinear_arith)
        requires
            s == steps * m + j,
            step * steps == OCTAVE_MC,
    ;
    (j, m)
}

/// On the chromatic scale a reading is never more than half a semitone
/// (50 cents) off its note.
pub proof fn lemma_chromatic_within_half_semitone(
    freq_mhz: u64,
    offset: int,
    transpose: Transposition,
)
    requires
        -3_000_000_000 <= offset <= 3_000_000_000,
    ensures
        abs_int(spec_from_pitch(freq_mhz, offset, Scale::Chromatic, transpose).millicents as int)
            <= SEMITONE_MC / 2,
{
    let x = offset + transposition_semitones(transpose) * SEMITONE_MC;
    lemma_chromatic_degrees();
    let (j, m) = lemma_equal_grid_witness(x, SEMITONE_MC as int, 12);
    assert(degree_mc(scale_degrees(Scale::Chromatic)[j]) == j * SEMITONE_MC);
    lemma_deviation_bounded_by_witness(
        freq_mhz,
        offset,
        Scale::Chromatic,
        transpose,
        j,
        m,
        SEMITONE_MC / 2,
    );
}

/// On the quarter-tone scale a reading is never more than half a quarter tone
/// (25 cents) off its note.
pub proof fn lemma_quarter_tone_within_half_step(
    freq_mhz: u64,
    offset: int,
    transpose: Transposition,
)
    requires
        -3_000_000_000 <= offset <= 3_000_000_000,
    ensures
        abs_int(spec_from_pitch(freq_mhz, offset, Scale::QuarterTone, transpose).millicents as int)
            <= QUARTER_TONE_MC / 2,
{
    let x = offset + transposition_semitones(transpose) * SEMITONE_MC;
    lemma_quarter_tone_degrees();
    let (j, m) = lemma_equal_grid_witness(x, QUARTER_TONE_MC as int, 24);
    assert(degree_mc(scale_degrees(Scale::QuarterTone)[j]) == j * QUARTER_TONE_MC);
    lemma_deviation_bounded_by_witness(
        freq_mhz,
        offset,
        Scale::QuarterTone,
        transpose,
        j,
        m,
        QUARTER_TONE_MC / 2,
    );
}

/// The chromatic scale is spelled with sharps only: whatever the pitch, a
/// chromatic reading's note is natural or sharp.
pub proof fn lemma_chromatic_is_sharp_only(freq_mhz: u64, offset: int, transpose: Transposition)
    ensures
        ({
            let a = spec_from_pitch(freq_mhz, offset, Scale::Chromatic, transpose).note.accidental;
            a == None::<Accidental> || a == Some(Accidental::Sharp)
        }),
{
    let x = offset + transposition_semitones(transpose) * SEMITONE_MC;
    let ds = scale_degrees(Scale::Chromatic);
    lemma_nearest_in_prefix_is_first_nearest(ds, x, ds.len());
    let i = nearest_degree(Scale::Chromatic, x);
    assert(ds[i].note == scale_notes(Scale::Chromatic)[i]);
}

/// The guitar scale holds the open strings only: a guitar reading's note is
/// always natural.
pub proof fn lemma_guitar_is_natural_only(freq_mhz: u64, offset: int, transpose: Transposition)
    ensures
        spec_from_pitch(freq_mhz, offset, Scale::Guitar, transpose).note.accidental is None,
{
    let x = offset + transposition_semitones(transpose) * SEMITONE_MC;
    let ds = scale_degrees(Scale::Guitar);
    lemma_nearest_in_prefix_is_first_nearest(ds, x, ds.len());
    let i = nearest_degree(Scale::Guitar, x);
    assert(ds[i].note == scale_notes(Scale::Guitar)[i]);
}

/// Transposition shows the written note: a reading on a transposing
/// instrument equals the concert-pitch reading of the pitch raised by the
/// instrument's semitones.
pub proof fn lemma_transposition_reads_written_pitch(
    freq_mhz: u64,
    offset: int,
    scale: Scale,
    transpose: Transposition,
)
    ensures
        spec_from_pitch(freq_mhz, offset, scale, transpose) == spec_from_pitch(
            freq_mhz,
            offset + transposition_semitones(transpose) * SEMITONE_MC,
            scale,
            Transposition::Concert,
        ),
{
}


/// On the guitar scale a reading is never more than 150 cents off its string:
/// the widest gap between neighbouring open-string notes is a minor third.
pub proof fn lemma_guitar_within_half_widest_gap(
    freq_mhz: u64,
    offset: int,
    transpose: Transposition,
)
    requires
        -3_000_000_000 <= offset <= 3_000_000_000,
    ensures
        abs_int(spec_from_pitch(freq_mhz, offset, Scale::Guitar, transpose).millicents as int)
            <= 150_000,
{
    let x = offset + transposition_semitones(transpose) * SEMITONE_MC;
    let ds = scale_degrees(Scale::Guitar);
    assert(ds[0].quarter_tones == 0);
    assert(ds[1].quarter_tones == 4);
    assert(ds[2].quarter_tones == 10);
    assert(ds[3].quarter_tones == 14);
    assert(ds[4].quarter_tones == 20);
    let m = x / (OCTAVE_MC as int);
    let r = x % (OCTAVE_MC as int);
    lemma_fundamental_div_mod(x, OCTAVE_MC as int);
    assert(x == OCTAVE_MC * m + r);
    let (j, k) = if r <= 100_000 {
        (0int, m)
    } else if r <= 350_000 {
        (1int, m)
    } else if r <= 600_000 {
        (2int, m)
    } else if r <= 850_000 {
        (3int, m)
    } else if r <= 1_100_000 {
        (4int, m)
    } else {
        (0int, m + 1)
    };
    assert(abs_int(x - degree_mc(ds[j]) - OCTAVE_MC * k) <= 150_000);
    lemma_deviation_bounded_by_witness(freq_mhz, offset, Scale::Guitar, transpose, j, k, 150_000);
}


/// `x / d == q` for `q * d <= x < (q + 1) * d`.
proof fn lemma_div_is(x: int, d: int, q: int)
    requires
        d > 0,
        q * d <= x < q * d + d,
    ensures
        x / d == q,
{
    lemma_fundamental_div_mod_converse_div(x, d, q, x - q * d);
}

/// Rounding commutes with adding one divisor, except at the negative half
/// tie, where rounding halves away from zero breaks the symmetry.
proof fn lemma_round_div_shift(a: int, b: int)
    requires
        b > 0,
        2 * a != -b,
    ensures
        round_div(a + b, b) == round_div(a, b) + 1,
{
    if a >= 0 {
        let q = (2 * a + b) / (2 * b);
        lemma_fundamental_div_mod(2 * a + b, 2 * b);
        assert((2 * b) * q == q * (2 * b)) by (nonlinear_arith);
        assert((q + 1) * (2 * b) == q * (2 * b) + 2 * b) by (nonlinear_arith);
        lemma_div_is(2 * (a + b) + b, 2 * b, q + 1);
    } else if a + b < 0 {
        let q = (-2 * (a + b) + b) / (2 * b);
        lemma_fundamental_div_mod(-2 * (a + b) + b, 2 * b);
        assert((2 * b) * q == q * (2 * b)) by (nonlinear_arith);
        assert((q + 1) * (2 * b) == q * (2 * b) + 2 * b) by (nonlinear_arith);
        lemma_div_is(-2 * a + b, 2 * b, q + 1);
    } else if 2 * a < -b {
        lemma_div_is(2 * (a + b) + b, 2 * b, 0);
        lemma_div_is(-2 * a + b, 2 * b, 1);
    } else {
        lemma_div_is(2 * (a + b) + b, 2 * b, 1);
        lemma_div_is(-2 * a + b, 2 * b, 0);
    }
}

/// An octave up, a degree is just as far away; its nearest copy moves up an
/// octave unless the pitch sits exactly halfway between two copies.
proof fn lemma_copy_shift(x: int, rel: int)
    ensures
        copy_distance(x + OCTAVE_MC, rel) == copy_distance(x, rel),
        2 * (x - rel) != -OCTAVE_MC ==> nearest_copy(x + OCTAVE_MC, rel) == nearest_copy(x, rel)
            + OCTAVE_MC,
{
    if 2 * (x - rel) != -OCTAVE_MC {
        lemma_round_div_shift(x - rel, OCTAVE_MC as int);
        assert((x + OCTAVE_MC) - rel == (x - rel) + OCTAVE_MC);
    } else {
        assert(x - rel == -600_000);
        lemma_div_is(2 * 600_000 + OCTAVE_MC, 2 * OCTAVE_MC, 1);
        assert(round_div(-600_000, OCTAVE_MC as int) == -1);
        assert(round_div(600_000, OCTAVE_MC as int) == 1);
        assert((x + OCTAVE_MC) - rel == 600_000);
    }
}

/// An octave up, the same degree is nearest.
proof fn lemma_nearest_in_prefix_shift(degs: Seq<Degree>, x: int, n: nat)
    ensures
        nearest_in_prefix(degs, x + OCTAVE_MC, n) == nearest_in_prefix(degs, x, n),
    decreases n,
{
    if n > 1 {
        lemma_nearest_in_prefix_shift(degs, x, (n - 1) as nat);
        let b = nearest_in_prefix(degs, x, (n - 1) as nat);
        lemma_copy_shift(x, degree_mc(degs[n - 1]));
        lemma_copy_shift(x, degree_mc(degs[b]));
    }
}

/// A spelled note never sits exactly half an octave from its natural name:
/// accidentals move it by at most a whole tone.
proof fn lemma_note_near_its_natural(note: Note, k: int)
    ensures
        2 * (note_qt_from_a(note) * QUARTER_TONE_MC + OCTAVE_MC * k - natural_mc(note.name))
            != -OCTAVE_MC,
{
    let u = name_qt_from_c(note.name) - name_qt_from_c(Name::A);
    let a = match note.accidental {
        Some(acc) => accidental_qt(acc),
        None => 0,
    };
    lemma_fundamental_div_mod(u + a, 24);
    lemma_fundamental_div_mod(u, 24);
    let m = (u + a) / 24 - u / 24;
    assert(note_qt_from_a(note) - (u % 24) == a - 24 * m) by (nonlinear_arith)
        requires
            u + a == 24 * ((u + a) / 24) + (u + a) % 24,
            u == 24 * (u / 24) + u % 24,
            note_qt_from_a(note) == (u + a) % 24,
            m == (u + a) / 24 - u / 24,
    ;
    assert(-2 <= a <= 2);
}

/// The scientific octave of a note an octave up is one more.
proof fn lemma_letter_octave_shift(note: Note, k: int)
    ensures
        ({
            let pos = note_qt_from_a(note) * QUARTER_TONE_MC + OCTAVE_MC * k;
            letter_octave(note.name, pos + OCTAVE_MC) == letter_octave(note.name, pos) + 1
        }),
{
    let pos = note_qt_from_a(note) * QUARTER_TONE_MC + OCTAVE_MC * k;
    lemma_note_near_its_natural(note, k);
    lemma_copy_shift(pos, natural_mc(note.name));
    let pn = nearest_copy(pos, natural_mc(note.name));
    let v = pn / (SEMITONE_MC as int);
    lemma_fundamental_div_mod(pn, SEMITONE_MC as int);
    lemma_div_is(pn + OCTAVE_MC, SEMITONE_MC as int, v + 12);
    lemma_fundamental_div_mod(69 + v, 12);
    lemma_div_is(69 + v + 12, 12, (69 + v) / 12 + 1);
}

/// The reading's degree lies within 150 cents of the written pitch, whatever
/// the scale.
proof fn lemma_nearest_degree_close(x: int, scale: Scale)
    requires
        -3_000_000_000 <= x <= 3_000_000_000,
    ensures
        ({
            let ds = scale_degrees(scale);
            copy_distance(x, degree_mc(ds[nearest_degree(scale, x)])) <= 150_000
        }),
{
    let ds = scale_degrees(scale);
    lemma_nearest_in_prefix_is_first_nearest(ds, x, ds.len());
    let d = ds[nearest_degree(scale, x)];
    lemma_nearest_copy_is_nearest(x, degree_mc(d), 0);
    match scale {
        Scale::Chromatic => lemma_chromatic_within_half_semitone(0, x, Transposition::Concert),
        Scale::QuarterTone => lemma_quarter_tone_within_half_step(0, x, Transposition::Concert),
        Scale::Guitar => lemma_guitar_within_half_widest_gap(0, x, Transposition::Concert),
    }
}

/// Octaves repeat at `2/1`: a pitch one octave higher reads as the same note,
/// the same number of cents off, one scientific octave up.
pub proof fn lemma_octaves_repeat(freq_mhz: u64, offset: int, scale: Scale, transpose: Transposition)
    requires
        i32::MIN <= offset,
        offset + OCTAVE_MC <= i32::MAX,
    ensures
        ({
            let lo = spec_from_pitch(freq_mhz, offset, scale, transpose);
            let hi = spec_from_pitch(freq_mhz, offset + OCTAVE_MC, scale, transpose);
            &&& hi.note == lo.note
            &&& hi.millicents == lo.millicents
            &&& hi.octave == lo.octave + 1
        }),
{
    let x = offset + transposition_semitones(transpose) * SEMITONE_MC;
    let ds = scale_degrees(scale);
    lemma_nearest_in_prefix_shift(ds, x, ds.len());
    assert(nearest_degree(scale, x + OCTAVE_MC) == nearest_degree(scale, x));
    let i = nearest_degree(scale, x);
    let d = ds[i];
    lemma_nearest_degree_close(x, scale);
    lemma_copy_shift(x, degree_mc(d));
    assert(2 * (x - degree_mc(d)) != -OCTAVE_MC) by {
        if 2 * (x - degree_mc(d)) == -OCTAVE_MC {
            assert(round_div(-600_000, OCTAVE_MC as int) == -1);
        }
    }
    let pos = nearest_copy(x, degree_mc(d));
    lemma_nearest_copy_is_nearest(x, degree_mc(d), 0);
    lemma_nearest_in_prefix_is_first_nearest(ds, x, ds.len());
    assert(d.quarter_tones == note_qt_from_a(d.note)) by {
        assert(d == spec_degree(scale_notes(scale)[i]));
        assert(0 <= note_qt_from_a(d.note) < 24);
    }
    let k = round_div(x - degree_mc(d), OCTAVE_MC as int);
    assert(pos == note_qt_from_a(d.note) * QUARTER_TONE_MC + OCTAVE_MC * k);
    lemma_letter_octave_shift(d.note, k);
    lemma_round_div_bounds(x - degree_mc(d), OCTAVE_MC as int);
    assert(-10_000 <= k <= 10_000) by (nonlinear_arith)
        requires
            -OCTAVE_MC <= 2 * ((x - degree_mc(d)) - OCTAVE_MC * k) <= OCTAVE_MC,
            -3_000_000_000 <= x <= 3_000_000_000,
            0 <= degree_mc(d) < OCTAVE_MC,
    ;
    lemma_letter_octave_bounded(d.note.name, pos);
}

/// Octaves repeat at `2/1` over any number of octaves: a pitch `k` octaves
/// higher reads as the same note, the same number of cents off, `k`
/// scientific octaves up.
pub proof fn lemma_octaves_repeat_k(
    freq_mhz: u64,
    offset: int,
    k: nat,
    scale: Scale,
    transpose: Transposition,
)
    requires
        i32::MIN <= offset,
        offset + k * OCTAVE_MC <= i32::MAX,
    ensures
        ({
            let lo = spec_from_pitch(freq_mhz, offset, scale, transpose);
            let hi = spec_from_pitch(freq_mhz, offset + k * OCTAVE_MC, scale, transpose);
            &&& hi.note == lo.note
            &&& hi.millicents == lo.millicents
            &&& hi.octave == lo.octave + k
        }),
    decreases k,
{
    if k > 0 {
        let j = (k - 1) as nat;
        lemma_octaves_repeat_k(freq_mhz, offset, j, scale, transpose);
        lemma_octaves_repeat(freq_mhz, offset + j * OCTAVE_MC, scale, transpose);
        assert(offset + j * OCTAVE_MC + OCTAVE_MC == offset + k * OCTAVE_MC);
    }
}

/// The octave of a pitch within reach of `i32` fits an `i32` with room to spare.
proof fn lemma_letter_octave_bounded(name: Name, pos: int)
    requires
        -4_000_000_000 <= pos <= 4_000_000_000,
    ensures
        -100_000 <= letter_octave(name, pos) <= 100_000,
{
    let rel_nat = natural_mc(name);
    assert(0 <= rel_nat < OCTAVE_MC);
    let k = round_div(pos - rel_nat, OCTAVE_MC as int);
    lemma_round_div_bounds(pos - rel_nat, OCTAVE_MC as int);
    assert(-10_000 <= k <= 10_000) by (nonlinear_arith)
        requires
            -OCTAVE_MC <= 2 * ((pos - rel_nat) - OCTAVE_MC * k) <= OCTAVE_MC,
            -4_000_000_000 <= pos <= 4_000_000_000,
            0 <= rel_nat < OCTAVE_MC,
    ;
    let pn = rel_nat + OCTAVE_MC * k;
    let v = pn / (SEMITONE_MC as int);
    lemma_fundamental_div_mod(pn, SEMITONE_MC as int);
    lemma_fundamental_div_mod(69 + v, 12);
}

/// The reading is anchored on the reference: the reference pitch itself reads
/// as natural A in octave 4, exactly in tune, on every scale.
pub proof fn lemma_a4_anchor(freq_mhz: u64, scale: Scale)
    ensures
        spec_from_pitch(freq_mhz, 0, scale, Transposition::Concert) == (NoteReading {
            freq_mhz,
            note: Note { name: Name::A, accidental: None },
            octave: 4,
            millicents: 0,
        }),
{
    let ds = scale_degrees(scale);
    lemma_nearest_in_prefix_is_first_nearest(ds, 0, ds.len());
    let i = nearest_degree(scale, 0);
    assert(ds[0] == spec_degree(natural_note(Name::A)));
    assert(round_div(0, OCTAVE_MC as int) == 0);
    assert(copy_distance(0, degree_mc(ds[0])) == 0);
    assert(i == 0) by {
        if i > 0 {
            assert(copy_distance(0, degree_mc(ds[i])) < copy_distance(0, degree_mc(ds[0])));
        }
    }
    assert(letter_octave(Name::A, 0) == 4);
}

/// Semitones of a natural letter above C (C = 0 … B = 11), as on a keyboard.
pub open spec fn letter_semitone(name: Name) -> int {
    match name {
        Name::C => 0,
        Name::D => 2,
        Name::E => 4,
        Name::F => 5,
        Name::G => 7,
        Name::A => 9,
        Name::B => 11,
    }
}

/// How far an accidental moves its natural letter, in millicents.
pub open spec fn accidental_millicents(acc: Option<Accidental>) -> int {
    match acc {
        None => 0,
        Some(Accidental::Flat) => -100_000,
        Some(Accidental::Demiflat) => -50_000,
        Some(Accidental::Demisharp) => 50_000,
        Some(Accidental::Sharp) => 100_000,
    }
}

/// Rounding `r + j` divisors, with `r` less than half a divisor from zero,
/// gives `j`.
proof fn lemma_round_div_near_multiple(r: int, j: int)
    requires
        -OCTAVE_MC < 2 * r < OCTAVE_MC,
    ensures
        round_div(r + OCTAVE_MC * j, OCTAVE_MC as int) == j,
{
    let a = r + OCTAVE_MC * j;
    if a >= 0 {
        lemma_div_is(2 * a + OCTAVE_MC, 2 * OCTAVE_MC, j);
    } else {
        lemma_div_is(-2 * a + OCTAVE_MC, 2 * OCTAVE_MC, -j);
    }
}

/// `(100_000 * m) / 1_200_000 == m / 12`.
proof fn lemma_scaled_div_twelve(m: int)
    ensures
        (SEMITONE_MC * m) / (OCTAVE_MC as int) == m / 12,
{
    lemma_fundamental_div_mod(m, 12);
    let q = m / 12;
    let r = m % 12;
    assert(SEMITONE_MC * m == OCTAVE_MC * q + SEMITONE_MC * r) by (nonlinear_arith)
        requires
            m == 12 * q + r,
    ;
    lemma_div_is(SEMITONE_MC * m, OCTAVE_MC as int, q);
}

/// A note sounding at an octave copy of its degree: its natural letter sits
/// on a whole semitone, `accidental` below it; the letter's MIDI number
/// (A4 = 69) has that letter's place in the octave, and the note's octave is
/// the letter's scientific octave.
proof fn lemma_letter_octave_of_copy(note: Note, k: int)
    ensures
        ({
            let pos = note_qt_from_a(note) * QUARTER_TONE_MC + OCTAVE_MC * k;
            let nat_pos = pos - accidental_millicents(note.accidental);
            &&& nat_pos % (SEMITONE_MC as int) == 0
            &&& ((6_900_000 + nat_pos) / (SEMITONE_MC as int)) % 12 == letter_semitone(note.name)
            &&& letter_octave(note.name, pos) == (6_900_000 + nat_pos) / (OCTAVE_MC as int) - 1
        }),
{
    let pos = note_qt_from_a(note) * QUARTER_TONE_MC + OCTAVE_MC * k;
    let u = name_qt_from_c(note.name) - name_qt_from_c(Name::A);
    let a = match note.accidental {
        Some(acc) => accidental_qt(acc),
        None => 0,
    };
    assert(accidental_millicents(note.accidental) == a * QUARTER_TONE_MC);
    assert(u == 2 * (letter_semitone(note.name) - 9));
    lemma_fundamental_div_mod(u + a, 24);
    lemma_fundamental_div_mod(u, 24);
    let q1 = (u + a) / 24;
    let q2 = u / 24;
    let j = k - q1 + q2;
    // The natural letter's copy nearest to the note is `a` quarter tones below it.
    assert(pos - natural_mc(note.name) == a * QUARTER_TONE_MC + OCTAVE_MC * j) by (nonlinear_arith)
        requires
            u + a == 24 * q1 + (u + a) % 24,
            u == 24 * q2 + u % 24,
            note_qt_from_a(note) == (u + a) % 24,
            natural_mc(note.name) == (u % 24) * QUARTER_TONE_MC,
            pos == note_qt_from_a(note) * QUARTER_TONE_MC + OCTAVE_MC * k,
            j == k - q1 + q2,
    ;
    assert(-2 <= a <= 2);
    lemma_round_div_near_multiple(a * QUARTER_TONE_MC, j);
    assert((pos - natural_mc(note.name)) == a * QUARTER_TONE_MC + OCTAVE_MC * j);
    let pos_nat = nearest_copy(pos, natural_mc(note.name));
    assert(pos_nat == natural_mc(note.name) + OCTAVE_MC * j);
    let nat_pos = pos - accidental_millicents(note.accidental);
    assert(nat_pos == pos_nat);
    // In semitones: the letter's MIDI number less 69.
    let n = (letter_semitone(note.name) - 9) + 12 * (k - q1);
    assert(nat_pos == SEMITONE_MC * n) by (nonlinear_arith)
        requires
            nat_pos == natural_mc(note.name) + OCTAVE_MC * j,
            natural_mc(note.name) == (u % 24) * QUARTER_TONE_MC,
            u == 24 * q2 + u % 24,
            u == 2 * (letter_semitone(note.name) - 9),
            j == k - q1 + q2,
            n == (letter_semitone(note.name) - 9) + 12 * (k - q1),
    ;
    lemma_div_is(nat_pos, SEMITONE_MC as int, n);
    lemma_fundamental_div_mod_converse_mod(nat_pos, SEMITONE_MC as int, n, 0);
    assert(6_900_000 + nat_pos == SEMITONE_MC * (69 + n));
    lemma_div_is(6_900_000 + nat_pos, SEMITONE_MC as int, 69 + n);
    lemma_fundamental_div_mod_converse_mod(
        69 + n,
        12,
        5 + k - q1,
        letter_semitone(note.name),
    );
    lemma_scaled_div_twelve(69 + n);
}

/// Readings name scientific octaves: the note's natural letter sits on a
/// whole semitone, `accidental` away from the pitch the reading snapped to
/// (the written pitch less the deviation); that letter's MIDI number
/// `m` (A4 = 69) has the letter's place in the octave, and the octave read is
/// `m div 12 - 1`, for every letter, accidental, scale and transposition.
pub proof fn lemma_octave_is_scientific(
    freq_mhz: u64,
    offset: int,
    scale: Scale,
    transpose: Transposition,
)
    requires
        i32::MIN <= offset <= i32::MAX,
    ensures
        ({
            let shift = match transpose {
                Transposition::Concert => 0int,
                Transposition::BFlat => 2,
                Transposition::EFlat => 9,
                Transposition::F => 7,
            };
            let r = spec_from_pitch(freq_mhz, offset, scale, transpose);
            let snapped = offset + shift * 100_000 - r.millicents;
            let nat_pos = snapped - accidental_millicents(r.note.accidental);
            &&& nat_pos % 100_000 == 0
            &&& ((6_900_000 + nat_pos) / 100_000) % 12 == letter_semitone(r.note.name)
            &&& r.octave == (6_900_000 + nat_pos) / 1_200_000 - 1
        }),
{
    let x = offset + transposition_semitones(transpose) * SEMITONE_MC;
    let ds = scale_degrees(scale);
    lemma_nearest_in_prefix_is_first_nearest(ds, x, ds.len());
    let i = nearest_degree(scale, x);
    let d = ds[i];
    assert(d.quarter_tones == note_qt_from_a(d.note)) by {
        assert(d == spec_degree(scale_notes(scale)[i]));
        assert(0 <= note_qt_from_a(d.note) < 24);
    }
    let k = round_div(x - degree_mc(d), OCTAVE_MC as int);
    let pos = nearest_copy(x, degree_mc(d));
    assert(pos == note_qt_from_a(d.note) * QUARTER_TONE_MC + OCTAVE_MC * k);
    lemma_round_div_bounds(x - degree_mc(d), OCTAVE_MC as int);
    assert(-600_000 <= x - pos <= 600_000);
    lemma_letter_octave_bounded(d.note.name, pos);
    lemma_letter_octave_of_copy(d.note, k);
}

} // verus!
