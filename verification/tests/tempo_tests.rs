use tm2077::pvec::PVector;
use tm2077::shell::{MetronomeState, Settings, Tm2077App};
use tm2077::metronome::Sound;
use tm2077::tempo::{graduations, keep_last, next_graduation, prev_graduation, tapped_bpm};

fn v(xs: &[u64]) -> PVector<u64> {
    PVector::from_slice(xs)
}

/// Seconds to the microseconds the library counts tap times in.
fn us(secs: f64) -> u64 {
    (secs * 1_000_000.0).round() as u64
}

#[test]
fn keep_last_trims_to_cap() {
    assert_eq!(keep_last(&v(&[1, 2, 3, 4, 5]), 3).to_vec(), vec![3, 4, 5]);
    assert_eq!(keep_last(&v(&[1, 2]), 3).to_vec(), vec![1, 2]);
    assert_eq!(keep_last(&v(&[]), 3).to_vec(), Vec::<u64>::new());
}

#[test]
fn tapped_bpm_needs_two_taps() {
    assert_eq!(tapped_bpm(&v(&[])), None);
    assert_eq!(tapped_bpm(&v(&[us(1.0)])), None);
}

#[test]
fn tapped_bpm_averages_intervals() {
    // 0.5 s between taps → 120 bpm.
    assert_eq!(
        tapped_bpm(&v(&[us(0.0), us(0.5), us(1.0), us(1.5)])),
        Some(120)
    );
}

#[test]
fn graduations_step_up_and_down() {
    assert_eq!(next_graduation(120), 126);
    assert_eq!(prev_graduation(120), 116);
    assert_eq!(next_graduation(60), 63);
    assert_eq!(prev_graduation(63), 60);
    assert_eq!(next_graduation(150), 152); // between graduations
    assert_eq!(prev_graduation(150), 144);
    assert_eq!(next_graduation(208), 208); // stays at the top
    assert_eq!(prev_graduation(40), 40); // stays at the bottom
    assert_eq!(next_graduation(250), 250); // above the scale: up stays
    assert_eq!(prev_graduation(250), 208); // above the scale: down enters
}

#[test]
fn tap_stays_off_grid_then_snaps_to_graduation() {
    // TAP TEMPO ignores graduated mode: it yields the exact averaged tempo,
    // even one that sits between graduations (e.g. 0.42 s → ~143 bpm).
    let tapped = tapped_bpm(&v(&[us(0.0), us(0.42), us(0.84), us(1.26)])).expect("two+ taps");
    assert_eq!(tapped, 143);
    assert!(!graduations().contains(&tapped));
    // The next ▲/▼ then snaps onto the surrounding graduations.
    assert_eq!(next_graduation(tapped), 144);
    assert_eq!(prev_graduation(tapped), 138);
}

#[test]
fn tapped_bpm_clamps_to_range() {
    assert_eq!(tapped_bpm(&v(&[us(0.0), us(3.0)])), Some(30)); // 20 bpm → clamped up
    assert_eq!(tapped_bpm(&v(&[us(0.0), us(0.1)])), Some(300)); // 600 bpm → clamped down
}

#[test]
fn tapped_bpm_needs_time_to_pass() {
    // The last tap not after the first gives no tempo.
    assert_eq!(tapped_bpm(&v(&[us(1.0), us(1.0)])), None);
    assert_eq!(tapped_bpm(&v(&[us(2.0), us(1.0)])), None);
}

#[test]
fn tapped_bpm_rounds_half_up() {
    // 3 intervals over 1.44 s: 125 bpm exactly; over 1.445 s: 124.567… → 125.
    assert_eq!(tapped_bpm(&v(&[0, 480_000, 960_000, 1_440_000])), Some(125));
    assert_eq!(tapped_bpm(&v(&[0, 1, 2, 1_445_000])), Some(125));
    // 60 / 0.48 = 125; 60 / 0.4839 = 123.99… → 124.
    assert_eq!(tapped_bpm(&v(&[0, 483_900])), Some(124));
    // 60 / 0.32 = 187.5 exactly: halves round up.
    assert_eq!(tapped_bpm(&v(&[0, 320_000])), Some(188));
}

#[test]
fn graduation_round_trips() {
    for g in graduations() {
        if g < 208 {
            assert_eq!(prev_graduation(next_graduation(g)), g);
        }
        if g > 40 {
            assert_eq!(next_graduation(prev_graduation(g)), g);
        }
    }
}

#[test]
fn tap_tempo_keeps_last_four_taps() {
    let mut app = Tm2077App::new(&Settings::default());
    for i in 0..6u64 {
        app.tap_tempo(i * 500_000);
    }
    assert_eq!(
        app.tap_times.to_vec(),
        vec![1_000_000, 1_500_000, 2_000_000, 2_500_000]
    );
    assert_eq!(app.metronome.bpm, 120);
}

#[test]
fn tap_tempo_restarts_after_a_pause() {
    let mut app = Tm2077App::new(&Settings::default());
    app.tap_tempo(0);
    app.tap_tempo(1_000_000); // 60 bpm
    assert_eq!(app.metronome.bpm, 60);
    // More than 2 s later: a new sequence, a single tap keeps the tempo.
    app.tap_tempo(3_500_000);
    assert_eq!(app.tap_times.to_vec(), vec![3_500_000]);
    assert_eq!(app.metronome.bpm, 60);
    app.tap_tempo(4_000_000);
    assert_eq!(app.metronome.bpm, 120);
    // Exactly 2 s later is still the same sequence.
    app.tap_tempo(6_000_000);
    assert_eq!(app.tap_times.to_vec(), vec![3_500_000, 4_000_000, 6_000_000]);
    assert_eq!(app.metronome.bpm, 48);
}

fn metronome(bpm: u32, graduated: bool) -> MetronomeState {
    MetronomeState {
        bpm,
        beats_per_bar: 4,
        running: false,
        beat_count: 0,
        graduated,
        sound: Sound::Electronic,
    }
}

#[test]
fn tempo_rocker_steps_by_one_or_by_graduation() {
    let mut m = metronome(143, false);
    m.tempo_up();
    assert_eq!(m.bpm, 144);
    m.tempo_down();
    m.tempo_down();
    assert_eq!(m.bpm, 142);
    let mut m = metronome(143, true);
    m.tempo_up();
    assert_eq!(m.bpm, 144);
    m.tempo_up();
    assert_eq!(m.bpm, 152);
    m.tempo_down();
    assert_eq!(m.bpm, 144);
}

#[test]
fn tempo_rocker_stays_in_range() {
    let mut m = metronome(300, false);
    m.tempo_up();
    assert_eq!(m.bpm, 300);
    let mut m = metronome(30, false);
    m.tempo_down();
    assert_eq!(m.bpm, 30);
    let mut m = metronome(35, true);
    m.tempo_down();
    assert_eq!(m.bpm, 35);
    let mut m = metronome(300, true);
    m.tempo_up();
    assert_eq!(m.bpm, 300);
}

#[test]
fn beat_rocker_bounds() {
    let mut m = metronome(120, false);
    m.beats_per_bar = 12;
    m.beats_up();
    assert_eq!(m.beats_per_bar, 12);
    m.beats_per_bar = 2;
    m.beats_down();
    assert_eq!(m.beats_per_bar, 1);
    // 0 beats per bar (no accented downbeat) is reachable, and the floor.
    m.beats_down();
    assert_eq!(m.beats_per_bar, 0);
    m.beats_down();
    assert_eq!(m.beats_per_bar, 0);
    m.beats_up();
    assert_eq!(m.beats_per_bar, 1);
}
