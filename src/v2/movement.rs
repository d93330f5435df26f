use vstd::prelude::*;

use crate::clock::Millis;
use crate::jumps::{JumpCounter, Side};
use crate::v2::state::{Gravity, PlayerState};

verus! {

/// A movement the player makes, applied to its velocity by the physics side.
///
/// The engine side gives each action its vector: `Walk` and `Longjump` go
/// along the player's heading, `Sideflip` along its left or right, `Swing`
/// along its forward direction.
#[derive(Clone, Copy, Debug, PartialEq, Eq)]
pub enum MovementAction {
    Walk,
    Jump,
    DoubleJump,
    Gliding,
    Sideflip(Side),
    Longjump,
    Highjump1,
    Highjump2,
    Swing,
}

/// How the horizontal velocity is damped each frame.
#[derive(Clone, Copy, Debug, PartialEq, Eq)]
pub enum Damping {
    /// By the player's own damping factor, on the ground.
    Ground,
    /// By 0.85, during a high jump.
    Highjump,
    /// By 0.927, in the air.
    Air,
    /// Not at all, during side flips and long jumps.
    Free,
}

impl Damping {
    /// The fixed factor, in thousandths, of the kinds that have one.
    pub fn fixed_thousandths(&self) -> (r: Option<u32>)
        ensures
            r == match *self {
                Damping::Highjump => Some(850u32),
                Damping::Air => Some(927u32),
                _ => None,
            },
    {
        match self {
            Damping::Highjump => Some(850),
            Damping::Air => Some(927),
            _ => None,
        }
    }
}

impl PlayerState {
    /// What an action does to the jump counter and to gravity: a jump or a
    /// double jump counts one more jump, begun at `now`; a long jump and the
    /// first push of a high jump lighten gravity. The other actions only move
    /// the player.
    pub fn apply_action(&mut self, action: MovementAction, now: Millis)
        requires
            (action == MovementAction::Jump || action == MovementAction::DoubleJump)
                ==> old(self).jump_counter.counter < u32::MAX,
        ensures
            *final(self) == match action {
                MovementAction::Jump | MovementAction::DoubleJump => (PlayerState {
                    jump_counter: JumpCounter {
                        counter: (old(self).jump_counter.counter + 1) as u32,
                        jump_time: now,
                    },
                    ..*old(self)
                }),
                MovementAction::Longjump => (PlayerState { gravity: Gravity::Longjump, ..*old(self) }),
                MovementAction::Highjump1 => (PlayerState { gravity: Gravity::Highjump, ..*old(self) }),
                _ => *old(self),
            },
    {
        match action {
            MovementAction::Jump | MovementAction::DoubleJump => {
                self.jump_counter = JumpCounter { counter: self.jump_counter.counter + 1, jump_time: now };
            },
            MovementAction::Longjump => self.gravity = Gravity::Longjump,
            MovementAction::Highjump1 => self.gravity = Gravity::Highjump,
            _ => {},
        }
    }

    /// The damping that applies: the player's own factor on the ground, a
    /// fixed one in a high jump or otherwise in the air, none during side
    /// flips and long jumps.
    pub fn damping(&self) -> (r: Damping)
        ensures
            r == if self.grounded {
                Damping::Ground
            } else if self.highjump {
                Damping::Highjump
            } else if !self.sideflip_l && !self.sideflip_r && !self.longjump {
                Damping::Air
            } else {
                Damping::Free
            },
    {
        if self.grounded {
            Damping::Ground
        } else if self.highjump {
            Damping::Highjump
        } else if !self.sideflip_l && !self.sideflip_r && !self.longjump {
            Damping::Air
        } else {
            Damping::Free
        }
    }
}

} // verus!
