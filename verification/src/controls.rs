//! Press-and-hold auto-repeat of the rocker buttons: a button fires once when
//! it is pressed, then repeatedly while it is held, after a short delay.
//! Times are in microseconds.

use vstd::prelude::*;

verus! {

/// Hold time before auto-repeat starts.
pub const REPEAT_DELAY_MICROS: u64 = 350_000;

/// Repeat period once going.
pub const REPEAT_INTERVAL_MICROS: u64 = 50_000;

/// A button's hold: when the press began and when it last fired. The hold is
/// latched when the press starts on the button, then kept alive by the global
/// pointer state until release.
#[derive(Clone, Copy, PartialEq, Eq, Debug)]
pub struct HoldRepeat {
    pub hold: Option<(u64, u64)>,
}

/// Whether a latched hold fires at `now`: past the delay since the press and
/// at least one interval since the last firing.
pub open spec fn repeat_due(press: u64, last_fire: u64, now: u64) -> bool {
    now >= press + REPEAT_DELAY_MICROS && now >= last_fire + REPEAT_INTERVAL_MICROS
}

impl HoldRepeat {
    /// Not held.
    pub fn new() -> (r: HoldRepeat)
        ensures
            r.hold is None,
    {
        HoldRepeat { hold: None }
    }

    /// One frame of the button: `primary_down` is the global pointer state,
    /// `pressed_here` whether the press is on this button. Returns whether the
    /// button fires this frame.
    pub fn fire(&mut self, primary_down: bool, pressed_here: bool, now: u64) -> (fired: bool)
        ensures
            !primary_down ==> !fired && final(self).hold is None,
            primary_down && old(self).hold is None ==> fired == pressed_here && final(self).hold
                == if pressed_here {
                Some((now, now))
            } else {
                None::<(u64, u64)>
            },
            primary_down && old(self).hold is Some ==> ({
                let (press, last) = old(self).hold.unwrap();
                &&& fired == repeat_due(press, last, now)
                &&& final(self).hold == if fired {
                    Some((press, now))
                } else {
                    old(self).hold
                }
            }),
    {
        if !primary_down {
            self.hold = None;
            return false;
        }
        match self.hold {
            None => {
                if pressed_here {
                    self.hold = Some((now, now));
                    true
                } else {
                    false
                }
            },
            Some((press, last_fire)) => {
                let fire = now >= press && now - press >= REPEAT_DELAY_MICROS && now >= last_fire
                    && now - last_fire >= REPEAT_INTERVAL_MICROS;
                if fire {
                    self.hold = Some((press, now));
                }
                fire
            },
        }
    }
}

} // verus!
