//! What the device's displays show, decided apart from the painting: the
//! 7-segment readouts, the three tuning LEDs, the shared analog needle's
//! deflection and swing, and the calibration readout.

use vstd::prelude::*;

use vstd::arithmetic::div_mod::{lemma_basic_div, lemma_mod_breakdown, lemma_small_mod};

use crate::note::{NoteReading, IN_TUNE_MILLICENTS};

verus! {

/// `10^n`.
pub open spec fn pow10(n: nat) -> nat
    decreases n,
{
    if n == 0 {
        1
    } else {
        10 * pow10((n - 1) as nat)
    }
}

/// Segment table for digits 0-9: `[a, b, c, d, e, f, g]`, laid out as
/// ```text
///  aaa
/// f   b
///  ggg
/// e   c
///  ddd
/// ```
pub open spec fn digit_segments(d: int) -> Seq<bool> {
    if d == 0 {
        seq![true, true, true, true, true, true, false]
    } else if d == 1 {
        seq![false, true, true, false, false, false, false]
    } else if d == 2 {
        seq![true, true, false, true, true, false, true]
    } else if d == 3 {
        seq![true, true, true, true, false, false, true]
    } else if d == 4 {
        seq![false, true, true, false, false, true, true]
    } else if d == 5 {
        seq![true, false, true, true, false, true, true]
    } else if d == 6 {
        seq![true, false, true, true, true, true, true]
    } else if d == 7 {
        seq![true, true, true, false, false, false, false]
    } else if d == 8 {
        seq![true, true, true, true, true, true, true]
    } else if d == 9 {
        seq![true, true, true, true, false, true, true]
    } else {
        seq![false, false, false, false, false, false, false]
    }
}

/// The lit segments of a cell: those of its digit, none for a blank cell or a
/// value that is not a digit.
pub fn segments(d: Option<u8>) -> (on: [bool; 7])
    ensures
        on@ == match d {
            Some(v) => digit_segments(v as int),
            None => digit_segments(10),
        },
{
    match d {
        Some(0) => [true, true, true, true, true, true, false],
        Some(1) => [false, true, true, false, false, false, false],
        Some(2) => [true, true, false, true, true, false, true],
        Some(3) => [true, true, true, true, false, false, true],
        Some(4) => [false, true, true, false, false, true, true],
        Some(5) => [true, false, true, true, false, true, true],
        Some(6) => [true, false, true, true, true, true, true],
        Some(7) => [true, true, true, false, false, false, false],
        Some(8) => [true, true, true, true, true, true, true],
        Some(9) => [true, true, true, true, false, true, true],
        _ => [false; 7],
    }
}

/// Whether `value` can be shown honestly in `count` cells; a field whose
/// capacity exceeds `u32` holds every value.
pub open spec fn fits_cells(value: u32, count: nat) -> bool {
    pow10(count) > u32::MAX || value < pow10(count)
}

/// The digit shown in column `i` (from the left) of a right-aligned field of
/// `count` cells: column `i` is decimal place `count - 1 - i`; places above the
/// value's magnitude are blank, and so is every cell when the value does not fit.
pub open spec fn spec_digit_at(value: u32, count: nat, i: nat) -> Option<u8> {
    let place = (count - 1 - i) as nat;
    if pow10(place) > u32::MAX {
        None
    } else if fits_cells(value, count) && (place == 0 || value >= pow10(place)) {
        Some(((value as nat / pow10(place)) % 10) as u8)
    } else {
        None
    }
}

proof fn lemma_pow10_positive(n: nat)
    ensures
        pow10(n) >= 1,
    decreases n,
{
    if n > 0 {
        lemma_pow10_positive((n - 1) as nat);
    }
}

/// `10^n` in `u32`, or `None` when it does not fit.
fn checked_pow10(n: usize) -> (r: Option<u32>)
    ensures
        pow10(n as nat) <= u32::MAX ==> r == Some(pow10(n as nat) as u32),
        pow10(n as nat) > u32::MAX ==> r is None,
{
    let mut acc: u32 = 1;
    let mut k: usize = 0;
    while k < n
        invariant
            k <= n,
            acc == pow10(k as nat),
        decreases n - k,
    {
        match acc.checked_mul(10) {
            Some(v) => {
                acc = v;
            },
            None => {
                proof {
                    lemma_pow10_grows(k as nat, n as nat);
                }
                return None;
            },
        }
        k = k + 1;
    }
    Some(acc)
}

/// `10^n` never decreases as `n` grows.
proof fn lemma_pow10_grows(a: nat, b: nat)
    requires
        a < b,
    ensures
        pow10(a) * 10 <= pow10(b),
    decreases b - a,
{
    lemma_pow10_positive(a);
    if b > a + 1 {
        lemma_pow10_grows(a, (b - 1) as nat);
        lemma_pow10_positive((b - 1) as nat);
    }
}

/// The digits of a right-aligned integer in `count` cells, left to right:
/// leading positions are blank, and a value that needs more digits than there
/// are cells blanks the whole field rather than showing its low digits.
pub fn number_digits(value: u32, count: usize) -> (cells: Vec<Option<u8>>)
    ensures
        cells@.len() == count,
        forall|i: int| 0 <= i < count ==> cells@[i] == spec_digit_at(value, count as nat, i as nat),
{
    let fits = match checked_pow10(count) {
        Some(cap) => value < cap,
        None => true,
    };
    let mut cells: Vec<Option<u8>> = Vec::new();
    let mut i: usize = 0;
    while i < count
        invariant
            i <= count,
            fits == fits_cells(value, count as nat),
            cells@.len() == i,
            forall|j: int| 0 <= j < i ==> cells@[j] == spec_digit_at(value, count as nat, j as nat),
        decreases count - i,
    {
        let place = count - 1 - i;
        let d = match checked_pow10(place) {
            Some(pow) => {
                proof {
                    lemma_pow10_positive(place as nat);
                }
                if fits && (place == 0 || value >= pow) {
                    Some(((value / pow) % 10) as u8)
                } else {
                    None
                }
            },
            None => None,
        };
        cells.push(d);
        i = i + 1;
    }
    cells
}

/// The three tuning LEDs above the LCD: flat, in tune, sharp.
#[derive(Clone, Copy, PartialEq, Eq, Debug, Structural)]
pub struct TuningLeds {
    pub flat: bool,
    pub in_tune: bool,
    pub sharp: bool,
}

/// The LEDs for the tuner's state: dark while the tuner is off or hears no
/// note; otherwise lit by the reading's deviation against the in-tune
/// tolerance.
pub open spec fn spec_tuning_leds(tuner_on: bool, reading: Option<NoteReading>) -> TuningLeds {
    match reading {
        Some(r) if tuner_on => TuningLeds {
            flat: r.millicents < -IN_TUNE_MILLICENTS,
            in_tune: -IN_TUNE_MILLICENTS <= r.millicents <= IN_TUNE_MILLICENTS,
            sharp: r.millicents > IN_TUNE_MILLICENTS,
        },
        _ => TuningLeds { flat: false, in_tune: false, sharp: false },
    }
}

/// Which of the flat / in-tune / sharp LEDs are lit.
pub fn tuning_leds(tuner_on: bool, reading: Option<NoteReading>) -> (leds: TuningLeds)
    ensures
        leds == spec_tuning_leds(tuner_on, reading),
{
    match reading {
        Some(r) if tuner_on => TuningLeds {
            flat: r.millicents < -IN_TUNE_MILLICENTS,
            in_tune: r.in_tune(),
            sharp: r.millicents > IN_TUNE_MILLICENTS,
        },
        _ => TuningLeds { flat: false, in_tune: false, sharp: false },
    }
}

/// With a note heard exactly one LED is lit, and the green one is lit exactly
/// when the reading is in tune; with none heard all are dark.
pub proof fn lemma_one_led_per_reading(tuner_on: bool, reading: Option<NoteReading>)
    ensures
        ({
            let l = spec_tuning_leds(tuner_on, reading);
            match reading {
                Some(r) if tuner_on => {
                    &&& (l.flat as int) + (l.in_tune as int) + (l.sharp as int) == 1
                    &&& l.in_tune == (-IN_TUNE_MILLICENTS <= r.millicents <= IN_TUNE_MILLICENTS)
                },
                _ => !l.flat && !l.in_tune && !l.sharp,
            }
        }),
{
}

/// Which LED lights follows the sign of the deviation: with the tuner on and
/// a note heard, the flat LED is lit exactly when the reading is more than
/// 4 cents flat, the sharp LED exactly when it is more than 4 cents sharp,
/// and the green one exactly within 4 cents either way.
pub proof fn lemma_leds_follow_the_deviation(reading: NoteReading)
    ensures
        ({
            let l = spec_tuning_leds(true, Some(reading));
            &&& l.flat == (reading.millicents < -4_000)
            &&& l.sharp == (reading.millicents > 4_000)
            &&& l.in_tune == (-4_000 <= reading.millicents && reading.millicents <= 4_000)
        }),
{
}

/// Full-scale needle deflection, in millicents (±50 cents).
pub const NEEDLE_RANGE_MILLICENTS: i32 = 50_000;

/// The tuner's needle deflection in millicents: the reading's deviation,
/// pinned to the ±50-cent scale; centred while off or hearing nothing.
pub fn needle_deflection(tuner_on: bool, reading: Option<NoteReading>) -> (d: i32)
    ensures
        d == match reading {
            Some(r) if tuner_on => if r.millicents < -NEEDLE_RANGE_MILLICENTS {
                -NEEDLE_RANGE_MILLICENTS as int
            } else if r.millicents > NEEDLE_RANGE_MILLICENTS {
                NEEDLE_RANGE_MILLICENTS as int
            } else {
                r.millicents as int
            },
            _ => 0int,
        },
{
    match reading {
        Some(r) if tuner_on => {
            if r.millicents < -NEEDLE_RANGE_MILLICENTS {
                -NEEDLE_RANGE_MILLICENTS
            } else if r.millicents > NEEDLE_RANGE_MILLICENTS {
                NEEDLE_RANGE_MILLICENTS
            } else {
                r.millicents
            }
        },
        _ => 0,
    }
}

/// Which instrument drives a band of the shared needle.
#[derive(Clone, Copy, PartialEq, Eq, Debug, Structural)]
pub enum NeedleSource {
    Tuner,
    Metronome,
}

/// How the shared needle is drawn: whether at all, which instrument drives
/// its outer (top) and inner (bottom) bands, and whether a gap parts them.
#[derive(Clone, Copy, PartialEq, Eq, Debug, Structural)]
pub struct NeedleBands {
    pub visible: bool,
    pub top: NeedleSource,
    pub bottom: NeedleSource,
    pub split_gap: bool,
}

/// The needle's bands: the tuner drives the top band and the metronome the
/// bottom one; an instrument running alone owns the whole needle; with both
/// idle no needle is drawn, and the bands are parted only when both run.
pub fn needle_bands(tuner_on: bool, metro_on: bool) -> (b: NeedleBands)
    ensures
        b == (NeedleBands {
            visible: tuner_on || metro_on,
            top: if tuner_on {
                NeedleSource::Tuner
            } else {
                NeedleSource::Metronome
            },
            bottom: if metro_on {
                NeedleSource::Metronome
            } else {
                NeedleSource::Tuner
            },
            split_gap: tuner_on && metro_on,
        }),
{
    NeedleBands {
        visible: tuner_on || metro_on,
        top: if tuner_on {
            NeedleSource::Tuner
        } else {
            NeedleSource::Metronome
        },
        bottom: if metro_on {
            NeedleSource::Metronome
        } else {
            NeedleSource::Tuner
        },
        split_gap: tuner_on && metro_on,
    }
}

/// The side of the needle's swing: -1 left, 1 right.
pub open spec fn side_of(right: bool) -> i8 {
    if right {
        1i8
    } else {
        -1i8
    }
}

/// The metronome's swing of the shared needle: which extreme it heads for
/// and the beat it last saw.
#[derive(Clone, Copy, PartialEq, Eq, Debug, Structural)]
pub struct NeedleSwing {
    pub last_beat: Option<u32>,
    /// Heading right (else left).
    pub right: bool,
}

impl NeedleSwing {
    /// Parked on the left, no beat seen.
    pub fn new() -> (s: NeedleSwing)
        ensures
            s == (NeedleSwing { last_beat: None, right: false }),
    {
        NeedleSwing { last_beat: None, right: false }
    }

    /// Once per frame: while idle, park on the left and record the current
    /// beat, so the first beat sweeps fully right; while running, flip sides
    /// every time the beat counter moves (the first observation just records
    /// it). Returns the side to head for: -1 left, 1 right.
    pub fn update(&mut self, metro_on: bool, beat: u32) -> (side: i8)
        ensures
            side == side_of(final(self).right),
            final(self).last_beat == Some(beat),
            !metro_on ==> !final(self).right,
            metro_on && old(self).last_beat == Some(beat) ==> final(self).right == old(self).right,
            metro_on && old(self).last_beat is None ==> final(self).right == old(self).right,
            metro_on && old(self).last_beat is Some && old(self).last_beat != Some(beat)
                ==> final(self).right == !old(self).right,
    {
        if !metro_on {
            self.last_beat = Some(beat);
            self.right = false;
            return -1;
        }
        let changed = match self.last_beat {
            Some(last) => last != beat,
            None => false,
        };
        if changed {
            self.right = !self.right;
        }
        self.last_beat = Some(beat);
        if self.right {
            1
        } else {
            -1
        }
    }
}

/// The calibration readout: the A4 reference rounded to whole hertz.
pub fn a4_display_hz(a4_mhz: u32) -> (hz: u32)
    ensures
        hz == (a4_mhz + 500) / 1000,
{
    ((a4_mhz as u64 + 500) / 1000) as u32
}


/// The value a cell stands for: its digit, 0 when blank.
pub open spec fn cell_value(d: Option<u8>) -> nat {
    match d {
        Some(v) => v as nat,
        None => 0,
    }
}

/// The number the lowest `k` places of a `count`-cell field spell: each
/// place's cell value times its power of ten.
pub open spec fn spelled(value: u32, count: nat, k: nat) -> nat
    decreases k,
{
    if k == 0 {
        0
    } else {
        spelled(value, count, (k - 1) as nat) + cell_value(
            spec_digit_at(value, count, (count - k) as nat),
        ) * pow10((k - 1) as nat)
    }
}

/// Every place of a field that fits shows the value's decimal digit there
/// (a blank standing for a leading zero).
proof fn lemma_place_shows_digit(value: u32, count: nat, p: nat)
    requires
        p < count,
        fits_cells(value, count),
    ensures
        cell_value(spec_digit_at(value, count, (count - 1 - p) as nat)) == (value as nat / pow10(p))
            % 10,
{
    lemma_pow10_positive(p);
    assert((count - 1 - (count - 1 - p)) as nat == p);
    if value < pow10(p) {
        lemma_basic_div(value as int, pow10(p) as int);
    }
}

proof fn lemma_spelled_is_low_places(value: u32, count: nat, k: nat)
    requires
        k <= count,
        fits_cells(value, count),
    ensures
        spelled(value, count, k) == value as nat % pow10(k),
    decreases k,
{
    lemma_pow10_positive(k);
    if k == 0 {
    } else {
        let p = (k - 1) as nat;
        lemma_spelled_is_low_places(value, count, p);
        lemma_place_shows_digit(value, count, p);
        assert((count - k) as nat == (count - 1 - p) as nat);
        lemma_pow10_positive(p);
        lemma_mod_breakdown(value as int, pow10(p) as int, 10);
        assert(pow10(k) == pow10(p) * 10);
    }
}

/// Honest readouts: when the value fits the field, its digits spell exactly
/// the value; leading cells stand blank for the zeros above its magnitude.
pub proof fn lemma_digits_spell_the_value(value: u32, count: nat)
    requires
        fits_cells(value, count),
    ensures
        spelled(value, count, count) == value,
{
    lemma_spelled_is_low_places(value, count, count);
    lemma_pow10_positive(count);
    lemma_small_mod(value as nat, pow10(count));
}

/// Every place of a readout shows its digit: when the value fits the field,
/// each place `p` at or below the value's magnitude (the units, or any `p`
/// with `value >= 10^p`) shows the decimal digit `(value / 10^p) % 10`, a
/// zero inside the number included; only the places above its magnitude are
/// blank. A value that does not fit blanks every cell.
pub proof fn lemma_each_place_shows_its_digit(value: u32, count: nat, p: nat)
    requires
        p < count,
    ensures
        fits_cells(value, count) && (p == 0 || value >= pow10(p)) ==> spec_digit_at(
            value,
            count,
            (count - 1 - p) as nat,
        ) == Some(((value as nat / pow10(p)) % 10) as u8),
        fits_cells(value, count) && p > 0 && value < pow10(p) ==> spec_digit_at(
            value,
            count,
            (count - 1 - p) as nat,
        ) is None,
        !fits_cells(value, count) ==> spec_digit_at(value, count, (count - 1 - p) as nat) is None,
{
    assert((count - 1 - (count - 1 - p) as nat) as nat == p);
}

} // verus!
