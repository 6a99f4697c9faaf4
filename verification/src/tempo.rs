//! Tempo arithmetic: the TAP TEMPO averaging and the traditional Maelzel
//! graduations that the TEMPO rocker steps through in graduated mode.
//!
//! Tap times are in microseconds.

use vstd::prelude::*;

use crate::pvec::{
    stamp_items, stamps_clone, stamps_front, stamps_last, stamps_len, stamps_skip, PVector,
};

verus! {

/// Tempo bounds, enforced by every path that changes the tempo.
pub const BPM_MIN: u32 = 30;

/// Tempo bounds, enforced by every path that changes the tempo.
pub const BPM_MAX: u32 = 300;

/// Microseconds in a minute.
pub const MICROS_PER_MINUTE: u64 = 60_000_000;

/// `v` clamped into `[lo, hi]`.
pub open spec fn clamp(v: int, lo: int, hi: int) -> int {
    if v < lo {
        lo
    } else if v > hi {
        hi
    } else {
        v
    }
}

/// The last `keep` elements of `s` (all of them when there are no more).
pub open spec fn last_n(s: Seq<u64>, keep: nat) -> Seq<u64> {
    if s.len() > keep {
        s.subrange(s.len() - keep, s.len() as int)
    } else {
        s
    }
}

/// The last `keep` elements as a new persistent vector (structural sharing keeps
/// both the copy and the rebuild cheap).
pub fn keep_last(taps: &PVector<u64>, keep: usize) -> (r: PVector<u64>)
    ensures
        stamp_items(r) == last_n(stamp_items(*taps), keep as nat),
{
    let len = stamps_len(taps);
    match len.checked_sub(keep) {
        Some(skip) if skip > 0 => {
            let r = stamps_skip(taps, skip);
            assert(stamp_items(*taps).skip(skip as int) == stamp_items(*taps).subrange(
                stamp_items(*taps).len() - keep,
                stamp_items(*taps).len() as int,
            ));
            r
        },
        _ => stamps_clone(taps),
    }
}

/// `n / d` rounded to the nearest integer, halves up, for `n >= 0` and `d > 0`.
pub open spec fn round_half_up(n: int, d: int) -> int {
    (2 * n + d) / (2 * d)
}

/// The tempo of a tap sequence: the average interval between consecutive taps
/// turned into beats per minute, rounded and clamped to `BPM_MIN..=BPM_MAX`.
/// There is none with fewer than two taps or when the last tap is not later
/// than the first.
pub open spec fn spec_tapped_bpm(taps: Seq<u64>) -> Option<u32> {
    if taps.len() < 2 || taps.last() <= taps[0] {
        None
    } else {
        Some(
            clamp(
                round_half_up(
                    MICROS_PER_MINUTE * (taps.len() - 1),
                    taps.last() - taps[0],
                ),
                BPM_MIN as int,
                BPM_MAX as int,
            ) as u32,
        )
    }
}

/// Average the consecutive tap intervals into a bpm clamped to 30..=300, or
/// `None` when there aren't yet enough taps for a well-defined tempo.
pub fn tapped_bpm(taps: &PVector<u64>) -> (r: Option<u32>)
    ensures
        r == spec_tapped_bpm(stamp_items(*taps)),
{
    let first = match stamps_front(taps) {
        Some(f) => f,
        None => return None,
    };
    let last = match stamps_last(taps) {
        Some(l) => l,
        None => return None,
    };
    let intervals = match stamps_len(taps).checked_sub(1) {
        Some(n) => n,
        None => return None,
    };
    if intervals < 1 || last <= first {
        return None;
    }
    let span: u128 = (last - first) as u128;
    let num: u128 = MICROS_PER_MINUTE as u128 * intervals as u128;
    assert(num <= 60_000_000 * 0xffff_ffff_ffff_ffff) by (nonlinear_arith)
        requires
            num == 60_000_000 * intervals,
            intervals <= 0xffff_ffff_ffff_ffff,
    ;
    let bpm: u128 = (2 * num + span) / (2 * span);
    let clamped: u32 = if bpm < BPM_MIN as u128 {
        BPM_MIN
    } else if bpm > BPM_MAX as u128 {
        BPM_MAX
    } else {
        bpm as u32
    };
    Some(clamped)
}

/// TAP TEMPO never leaves the tempo bounds: whenever taps give a tempo, it
/// lies within `BPM_MIN..=BPM_MAX`.
pub proof fn lemma_tapped_bpm_in_range(taps: Seq<u64>)
    ensures
        spec_tapped_bpm(taps) matches Some(b) ==> BPM_MIN <= b <= BPM_MAX,
{
}

/// Traditional Maelzel graduations (40–208 bpm): dense low, coarser as tempo rises.
pub open spec fn graduation_seq() -> Seq<u32> {
    seq![
        40, 42, 44, 46, 48, 50, 52, 54, 56, 58, 60, 63, 66, 69, 72, 76, 80, 84, 88, 92, 96, 100,
        104, 108, 112, 116, 120, 126, 132, 138, 144, 152, 160, 168, 176, 184, 192, 200, 208,
    ]
}

/// The graduations, ascending.
pub fn graduations() -> (g: Vec<u32>)
    ensures
        g@ == graduation_seq(),
{
    vec![
        40, 42, 44, 46, 48, 50, 52, 54, 56, 58, 60, 63, 66, 69, 72, 76, 80, 84, 88, 92, 96, 100,
        104, 108, 112, 116, 120, 126, 132, 138, 144, 152, 160, 168, 176, 184, 192, 200, 208,
    ]
}

/// `g` is a graduation.
pub open spec fn is_graduation(g: u32) -> bool {
    graduation_seq().contains(g)
}

/// `r` is the step up from `bpm`: the least graduation strictly above it, or
/// `bpm` itself when no graduation lies above.
pub open spec fn is_next_graduation(bpm: u32, r: u32) -> bool {
    if exists|i: int| 0 <= i < graduation_seq().len() && graduation_seq()[i] > bpm {
        &&& is_graduation(r)
        &&& r > bpm
        &&& forall|i: int|
            0 <= i < graduation_seq().len() && graduation_seq()[i] > bpm ==> r
                <= #[trigger] graduation_seq()[i]
    } else {
        r == bpm
    }
}

/// `r` is the step down from `bpm`: the greatest graduation strictly below it,
/// or `bpm` itself when no graduation lies below.
pub open spec fn is_prev_graduation(bpm: u32, r: u32) -> bool {
    if exists|i: int| 0 <= i < graduation_seq().len() && graduation_seq()[i] < bpm {
        &&& is_graduation(r)
        &&& r < bpm
        &&& forall|i: int|
            0 <= i < graduation_seq().len() && graduation_seq()[i] < bpm ==> r
                >= #[trigger] graduation_seq()[i]
    } else {
        r == bpm
    }
}

/// The graduations strictly increase.
pub proof fn lemma_graduations_increase()
    ensures
        forall|i: int, j: int|
            0 <= i < j < graduation_seq().len() ==> graduation_seq()[i] < graduation_seq()[j],
{
    let g = graduation_seq();
    assert forall|i: int, j: int| 0 <= i < j < g.len() implies g[i] < g[j] by {
        assert forall|k: int| 0 <= k < g.len() - 1 implies #[trigger] g[k] < g[k + 1] by {
            assert(g.len() == 39);
        }
        lemma_increasing_steps(g, i, j);
    }
}

proof fn lemma_increasing_steps(g: Seq<u32>, i: int, j: int)
    requires
        0 <= i < j < g.len(),
        forall|k: int| 0 <= k < g.len() - 1 ==> #[trigger] g[k] < g[k + 1],
    ensures
        g[i] < g[j],
    decreases j - i,
{
    if j > i + 1 {
        lemma_increasing_steps(g, i, j - 1);
        assert(g[j - 1] < g[j]);
    }
}

/// The next graduation strictly above `bpm` (unchanged if already at/above the top).
pub fn next_graduation(bpm: u32) -> (r: u32)
    ensures
        is_next_graduation(bpm, r),
{
    let g = graduations();
    proof {
        lemma_graduations_increase();
    }
    let mut i: usize = 0;
    while i < g.len()
        invariant
            g@ == graduation_seq(),
            i <= g@.len(),
            forall|k: int| 0 <= k < i ==> g@[k] <= bpm,
            forall|a: int, b: int|
                0 <= a < b < graduation_seq().len() ==> graduation_seq()[a] < graduation_seq()[b],
        decreases g@.len() - i,
    {
        if g[i] > bpm {
            let r = g[i];
            assert forall|k: int| 0 <= k < g@.len() && g@[k] > bpm implies r
                <= #[trigger] graduation_seq()[k] by {
                if k < i {
                } else if k > i {
                }
            }
            assert(graduation_seq()[i as int] == r);
            return r;
        }
        i = i + 1;
    }
    bpm
}

/// The previous graduation strictly below `bpm` (unchanged if already at/below the bottom).
pub fn prev_graduation(bpm: u32) -> (r: u32)
    ensures
        is_prev_graduation(bpm, r),
{
    let g = graduations();
    proof {
        lemma_graduations_increase();
    }
    let mut i: usize = g.len();
    while i > 0
        invariant
            g@ == graduation_seq(),
            i <= g@.len(),
            forall|k: int| i <= k < g@.len() ==> g@[k] >= bpm,
            forall|a: int, b: int|
                0 <= a < b < graduation_seq().len() ==> graduation_seq()[a] < graduation_seq()[b],
        decreases i,
    {
        i = i - 1;
        if g[i] < bpm {
            let r = g[i];
            assert forall|k: int| 0 <= k < g@.len() && g@[k] < bpm implies r
                >= #[trigger] graduation_seq()[k] by {
                if k > i {
                } else if k < i {
                }
            }
            assert(graduation_seq()[i as int] == r);
            return r;
        }
    }
    bpm
}


/// Stepping up never lowers the tempo and stepping down never raises it.
pub proof fn lemma_graduation_steps_are_monotone(bpm: u32, up: u32, down: u32)
    requires
        is_next_graduation(bpm, up),
        is_prev_graduation(bpm, down),
    ensures
        down <= bpm <= up,
{
}

/// On the graduated scale, one step up then one step down returns to the
/// starting graduation (below the top one), and one step down then one step up
/// returns to the starting graduation (above the bottom one).
pub proof fn lemma_graduation_steps_round_trip(g: u32, up: u32, back: u32, down: u32, again: u32)
    requires
        is_graduation(g),
        is_next_graduation(g, up),
        is_prev_graduation(up, back),
        is_prev_graduation(g, down),
        is_next_graduation(down, again),
    ensures
        g < 208 ==> back == g,
        g > 40 ==> again == g,
{
    let s = graduation_seq();
    lemma_graduations_increase();
    let a = choose|a: int| 0 <= a < s.len() && s[a] == g;
    if g < 208 {
        assert(a < s.len() - 1);
        assert(s[a + 1] > g);
        let k = choose|k: int| 0 <= k < s.len() && s[k] == up;
        assert(up <= s[a + 1]);
        assert(k > a);
        assert(k == a + 1) by {
            if k > a + 1 {
                assert(s[a + 1] < s[k]);
            }
        }
        assert(s[a] < up);
        let b = choose|b: int| 0 <= b < s.len() && s[b] == back;
        assert(back >= s[a]);
        assert(b < a + 1);
        assert(b == a) by {
            if b < a {
                assert(s[b] < s[a]);
            }
        }
    }
    if g > 40 {
        assert(a > 0) by {
            if a == 0 {
                assert(s[0] == 40);
            }
        }
        assert(s[a - 1] < g);
        let k = choose|k: int| 0 <= k < s.len() && s[k] == down;
        assert(down >= s[a - 1]);
        assert(k < a);
        assert(k == a - 1) by {
            if k < a - 1 {
                assert(s[k] < s[a - 1]);
            }
        }
        assert(s[a] > down);
        let b = choose|b: int| 0 <= b < s.len() && s[b] == again;
        assert(again <= s[a]);
        assert(b > a - 1);
        assert(b == a) by {
            if b > a {
                assert(s[a] < s[b]);
            }
        }
    }
}

} // verus!
