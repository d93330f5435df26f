use vstd::prelude::*;

use crate::clock::{has_passed, passed, Millis};
use crate::v2::input::Pad;

verus! {

/// Shortest time between two shots.
pub const FIRE_INTERVAL: Millis = 100;

/// Shortest time between two wrench swings.
pub const SWING_INTERVAL: Millis = 250;

/// Time after the last swing at which the combo starts over.
pub const COMBO_RESET: Millis = 500;

/// Swings in one combo.
pub const COMBO_LENGTH: u32 = 3;

/// The wrench combo: when the last swing began and how many swings it holds.
#[derive(Clone, Copy, Debug, PartialEq, Eq)]
pub struct Swing {
    pub swing_time: Millis,
    pub swing_number: u32,
}

/// The moment of the latest shot in flight, or zero when none is later.
pub fn last_shot_time(shots: &Vec<Millis>) -> (r: Millis)
    ensures
        r >= 0,
        forall|i: int| 0 <= i < shots@.len() ==> shots@[i] <= r,
        r == 0 || exists|i: int| 0 <= i < shots@.len() && shots@[i] == r,
{
    let mut last: Millis = 0;
    let mut k: usize = 0;
    while k < shots.len()
        invariant
            k <= shots@.len(),
            last >= 0,
            forall|i: int| 0 <= i < k ==> shots@[i] <= last,
            last == 0 || exists|i: int| 0 <= i < k && shots@[i] == last,
        decreases shots@.len() - k,
    {
        if shots[k] > last {
            last = shots[k];
        }
        k = k + 1;
    }
    last
}

/// Whether the blaster fires: the fire button is held and more than
/// `FIRE_INTERVAL` has passed since the latest shot in flight.
pub fn shoot(pad: &Pad, shots: &Vec<Millis>, now: Millis) -> (r: bool)
    ensures
        r == (pad.connected && pad.fire_held && (forall|i: int|
            0 <= i < shots@.len() ==> passed(now as int, shots@[i] as int, FIRE_INTERVAL as int))
            && passed(now as int, 0, FIRE_INTERVAL as int)),
{
    if !pad.connected || !pad.fire_held {
        return false;
    }
    let last = last_shot_time(shots);
    let r = has_passed(now, last, FIRE_INTERVAL);
    proof {
        if !r && last != 0 {
            let i = choose|i: int| 0 <= i < shots@.len() && shots@[i] == last;
            assert(!passed(now as int, shots@[i] as int, FIRE_INTERVAL as int));
        }
    }
    r
}

impl Swing {
    /// No swing yet.
    pub fn new() -> (s: Swing)
        ensures
            s.swing_time == 0 && s.swing_number == 0,
    {
        Swing { swing_time: 0, swing_number: 0 }
    }

    /// A wrench swing: on the ground, a press more than `SWING_INTERVAL` after
    /// the last swing adds a swing to the combo, up to `COMBO_LENGTH`; the
    /// combo starts over once `COMBO_RESET` has passed since its last swing.
    /// Returns whether a swing began, which lunges the player forward.
    pub fn swing(&mut self, pad: &Pad, grounded: bool, now: Millis) -> (r: bool)
        ensures
            ({
                let swings = pad.connected && grounded && pad.swing_pressed && old(self).swing_number
                    < COMBO_LENGTH && passed(now as int, old(self).swing_time as int, SWING_INTERVAL as int);
                let swung = if swings {
                    Swing { swing_time: now, swing_number: (old(self).swing_number + 1) as u32 }
                } else {
                    *old(self)
                };
                &&& r == swings
                &&& *final(self) == if pad.connected && passed(
                    now as int,
                    swung.swing_time as int,
                    COMBO_RESET as int,
                ) {
                    Swing { swing_number: 0, ..swung }
                } else {
                    swung
                }
            }),
    {
        if !pad.connected {
            return false;
        }
        let swings = grounded && pad.swing_pressed && self.swing_number < COMBO_LENGTH && has_passed(
            now,
            self.swing_time,
            SWING_INTERVAL,
        );
        if swings {
            *self = Swing { swing_time: now, swing_number: self.swing_number + 1 };
        }
        if has_passed(now, self.swing_time, COMBO_RESET) {
            *self = Swing { swing_number: 0, ..*self };
        }
        swings
    }
}

} // verus!
