use vstd::prelude::*;

use crate::clock::Millis;
use crate::jumps::{JumpCounter, Side};
use crate::v1::state::PlayerState;

verus! {

/// A movement the player makes, applied to its velocity by the physics side.
///
/// The engine side gives each action its vector: `Move` and `LongJumpStart`
/// go along the heading, `Swing1` along a quarter of the forward direction,
/// `SideFlip` along the player's left or right.
#[derive(Clone, Copy, Debug, PartialEq, Eq)]
pub enum MovementAction {
    Move,
    Jump,
    DoubleJump,
    Swing1,
    HighJump,
    LongJump,
    LongJumpStart,
    SideFlip(Side),
}

/// How the horizontal velocity is damped each frame.
#[derive(Clone, Copy, Debug, PartialEq, Eq)]
pub enum Damping {
    /// By the player's own damping factor, on the ground or in a long jump.
    Own,
    /// By 0.94, in the air.
    Air,
    /// Not at all, during a side flip.
    Free,
}

impl Damping {
    /// The fixed factor, in thousandths, of the kinds that have one.
    pub fn fixed_thousandths(&self) -> (r: Option<u32>)
        ensures
            r == match *self {
                Damping::Air => Some(940u32),
                _ => None,
            },
    {
        match self {
            Damping::Air => Some(940),
            _ => None,
        }
    }
}

impl PlayerState {
    /// What an action does to the jump counter: a jump counts one more jump,
    /// begun at `now`; a double jump counts one more and keeps the moment of
    /// the first; the start of a long jump marks `now` without counting. The
    /// other actions only move the player.
    pub fn apply_action(&mut self, action: MovementAction, now: Millis)
        requires
            (action == MovementAction::Jump || action == MovementAction::DoubleJump)
                ==> old(self).jump_counter.counter < u32::MAX,
        ensures
            final(self).jump_counter == match action {
                MovementAction::Jump => JumpCounter {
                    counter: (old(self).jump_counter.counter + 1) as u32,
                    jump_time: now,
                },
                MovementAction::DoubleJump => JumpCounter {
                    counter: (old(self).jump_counter.counter + 1) as u32,
                    ..old(self).jump_counter
                },
                MovementAction::LongJumpStart => JumpCounter { jump_time: now, ..old(self).jump_counter },
                _ => old(self).jump_counter,
            },
            *final(self) == (PlayerState { jump_counter: final(self).jump_counter, ..*old(self) }),
    {
        match action {
            MovementAction::Jump => {
                self.jump_counter = JumpCounter { counter: self.jump_counter.counter + 1, jump_time: now };
            },
            MovementAction::DoubleJump => {
                self.jump_counter.counter = self.jump_counter.counter + 1;
            },
            MovementAction::LongJumpStart => {
                self.jump_counter.jump_time = now;
            },
            _ => {},
        }
    }

    /// The damping that applies: the player's own factor on the ground or in
    /// a long jump, a fixed one otherwise, none during a side flip in the air.
    pub fn damping(&self) -> (r: Damping)
        ensures
            r == if self.grounded || self.long_jump {
                Damping::Own
            } else if self.side_flip is None {
                Damping::Air
            } else {
                Damping::Free
            },
    {
        if self.grounded || self.long_jump {
            Damping::Own
        } else if self.side_flip.is_none() {
            Damping::Air
        } else {
            Damping::Free
        }
    }

    /// Gliding slows the fall and the horizontal speed, except during a
    /// double jump.
    pub fn glide_drag(&self) -> (r: bool)
        ensures
            r == (self.gliding && !self.double_jump),
    {
        self.gliding && !self.double_jump
    }
}

} // verus!
