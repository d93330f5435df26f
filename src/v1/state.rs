use vstd::prelude::*;

use crate::clock::Millis;
use crate::jumps::JumpCounter;

verus! {

/// A side flip, with the moment it began.
#[derive(Clone, Copy, Debug, PartialEq, Eq)]
pub struct SideFlip(pub Millis);

/// A wrench swing, with the moment it began.
#[derive(Clone, Copy, Debug, PartialEq, Eq)]
pub struct Swing1 {
    pub swing_time: Millis,
}

/// The state markers of the player, with its jump counter.
#[derive(Clone, Copy, Debug, PartialEq, Eq)]
pub struct PlayerState {
    pub idle: bool,
    pub walking: bool,
    pub jump: bool,
    pub double_jump: bool,
    pub high_jump: bool,
    pub long_jump: bool,
    pub falling: bool,
    pub gliding: bool,
    pub crouch: bool,
    pub grounded: bool,
    pub side_flip: Option<SideFlip>,
    pub swing: Option<Swing1>,
    /// The heading, the direction the player walks in, is not zero.
    pub heading_set: bool,
    pub jump_counter: JumpCounter,
}

/// A marker that an animation clears when it has played to its end.
#[derive(Clone, Copy, Debug, PartialEq, Eq)]
pub enum Marker {
    Jump,
    DoubleJump,
    HighJump,
    LongJump,
}

impl PlayerState {
    /// A freshly spawned player: no marker set, a zero heading, no jump made.
    pub fn new() -> (s: PlayerState)
        ensures
            !s.idle && !s.walking && !s.jump && !s.double_jump && !s.high_jump && !s.long_jump,
            !s.falling && !s.gliding && !s.crouch && !s.grounded,
            s.side_flip is None && s.swing is None && !s.heading_set,
            s.jump_counter.counter == 0 && s.jump_counter.jump_time == -1000,
    {
        PlayerState {
            idle: false,
            walking: false,
            jump: false,
            double_jump: false,
            high_jump: false,
            long_jump: false,
            falling: false,
            gliding: false,
            crouch: false,
            grounded: false,
            side_flip: None,
            swing: None,
            heading_set: false,
            jump_counter: JumpCounter::new(),
        }
    }

    /// Clears the high jump and double jump markers, as walking or standing
    /// idle does when its animation starts.
    pub fn clear_leaps(&mut self)
        ensures
            *final(self) == (PlayerState { high_jump: false, double_jump: false, ..*old(self) }),
    {
        self.high_jump = false;
        self.double_jump = false;
    }

    /// Clears one marker and leaves the rest of the state as it was.
    pub fn clear(&mut self, marker: Marker)
        ensures
            *final(self) == match marker {
                Marker::Jump => (PlayerState { jump: false, ..*old(self) }),
                Marker::DoubleJump => (PlayerState { double_jump: false, ..*old(self) }),
                Marker::HighJump => (PlayerState { high_jump: false, ..*old(self) }),
                Marker::LongJump => (PlayerState { long_jump: false, ..*old(self) }),
            },
    {
        match marker {
            Marker::Jump => self.jump = false,
            Marker::DoubleJump => self.double_jump = false,
            Marker::HighJump => self.high_jump = false,
            Marker::LongJump => self.long_jump = false,
        }
    }
}

} // verus!
