use vstd::prelude::*;

use crate::jumps::JumpCounter;

verus! {

/// How strongly gravity pulls on the player.
#[derive(Clone, Copy, Debug, PartialEq, Eq)]
pub enum Gravity {
    /// The usual pull, three times the world's gravity.
    Normal,
    /// During a long jump: the world's gravity.
    Longjump,
    /// At the start of a high jump: 1.3 times the world's gravity.
    Highjump,
    /// Late in a high jump, while the player floats down: 1.5 times.
    HighjumpFloat,
}

impl Gravity {
    /// The gravity scale, in tenths.
    pub fn scale_tenths(&self) -> (r: u32)
        ensures
            r == match *self {
                Gravity::Normal => 30u32,
                Gravity::Longjump => 10u32,
                Gravity::Highjump => 13u32,
                Gravity::HighjumpFloat => 15u32,
            },
    {
        match self {
            Gravity::Normal => 30,
            Gravity::Longjump => 10,
            Gravity::Highjump => 13,
            Gravity::HighjumpFloat => 15,
        }
    }
}

/// The state markers of the player, with its jump counter and gravity.
///
/// Several markers may hold at once: a grounded player may be walking and
/// landing in the same frame.
#[derive(Clone, Copy, Debug, PartialEq, Eq)]
pub struct PlayerState {
    pub idle: bool,
    pub walk: bool,
    pub strafe: bool,
    pub crouch: bool,
    pub sideflip_l: bool,
    pub sideflip_r: bool,
    pub longjump: bool,
    pub highjump: bool,
    pub jump: bool,
    pub double_jump: bool,
    pub glide: bool,
    pub grounded: bool,
    pub falling: bool,
    pub land: bool,
    pub jump_counter: JumpCounter,
    pub gravity: Gravity,
}

/// A marker that an animation clears when it has played to its end.
#[derive(Clone, Copy, Debug, PartialEq, Eq)]
pub enum Marker {
    Jump,
    DoubleJump,
    Land,
    SideflipL,
    SideflipR,
}

impl PlayerState {
    /// A freshly spawned player: no marker set, no jump made, usual gravity.
    pub fn new() -> (s: PlayerState)
        ensures
            !s.idle && !s.walk && !s.strafe && !s.crouch,
            !s.sideflip_l && !s.sideflip_r && !s.longjump && !s.highjump,
            !s.jump && !s.double_jump && !s.glide,
            !s.grounded && !s.falling && !s.land,
            s.jump_counter.counter == 0 && s.jump_counter.jump_time == -1000,
            s.gravity == Gravity::Normal,
    {
        PlayerState {
            idle: false,
            walk: false,
            strafe: false,
            crouch: false,
            sideflip_l: false,
            sideflip_r: false,
            longjump: false,
            highjump: false,
            jump: false,
            double_jump: false,
            glide: false,
            grounded: false,
            falling: false,
            land: false,
            jump_counter: JumpCounter::new(),
            gravity: Gravity::Normal,
        }
    }

    /// Clears one marker and leaves the rest of the state as it was.
    pub fn clear(&mut self, marker: Marker)
        ensures
            *final(self) == match marker {
                Marker::Jump => (PlayerState { jump: false, ..*old(self) }),
                Marker::DoubleJump => (PlayerState { double_jump: false, ..*old(self) }),
                Marker::Land => (PlayerState { land: false, ..*old(self) }),
                Marker::SideflipL => (PlayerState { sideflip_l: false, ..*old(self) }),
                Marker::SideflipR => (PlayerState { sideflip_r: false, ..*old(self) }),
            },
    {
        match marker {
            Marker::Jump => self.jump = false,
            Marker::DoubleJump => self.double_jump = false,
            Marker::Land => self.land = false,
            Marker::SideflipL => self.sideflip_l = false,
            Marker::SideflipR => self.sideflip_r = false,
        }
    }

    /// The player is in the air on a move of its own (a jump, a double jump,
    /// a side flip or a long jump), so that the camera keeps to the height at
    /// which it last stood.
    pub fn in_aerial_move(&self) -> (r: bool)
        ensures
            r == (self.double_jump || self.jump || self.sideflip_l || self.sideflip_r
                || self.longjump),
    {
        self.double_jump || self.jump || self.sideflip_l || self.sideflip_r || self.longjump
    }
}

} // verus!
