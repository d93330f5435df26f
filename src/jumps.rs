use vstd::prelude::*;

use crate::clock::Millis;

verus! {

/// Counts the jumps since the player last landed, and when the last one began.
#[derive(Clone, Copy, Debug, PartialEq, Eq)]
pub struct JumpCounter {
    pub counter: u32,
    pub jump_time: Millis,
}

impl JumpCounter {
    /// No jump yet: the counter is zero and the last jump lies a second before
    /// the start of the game.
    pub fn new() -> (c: JumpCounter)
        ensures
            c.counter == 0,
            c.jump_time == -1000,
    {
        JumpCounter { counter: 0, jump_time: -1000 }
    }
}

/// The side of the player that a flip goes to.
#[derive(Clone, Copy, Debug, PartialEq, Eq)]
pub enum Side {
    Left,
    Right,
}

} // verus!
