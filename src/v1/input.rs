use vstd::prelude::*;

use crate::clock::{has_passed, is_within, passed, Millis};
use crate::jumps::{JumpCounter, Side};
use crate::stick::Stick;
use crate::v1::movement::MovementAction;
use crate::v1::state::{PlayerState, SideFlip, Swing1};

verus! {

/// Time after a jump within which a second press makes a double jump.
pub const DOUBLE_JUMP_WINDOW: Millis = 670;

/// Length of a wrench swing.
pub const SWING_TIME: Millis = 610;

/// How far apart, in ten-thousandths, the facing and the stick must be (as
/// the absolute cosines of their angles) for a crouching jump to become a
/// side flip.
pub const FLIP_GAP: i32 = 1200;

/// What the gamepad reports in one frame.
#[derive(Clone, Copy, Debug, PartialEq, Eq)]
pub struct Pad {
    /// A gamepad is connected; when not, every other field is ignored.
    pub connected: bool,
    /// The left stick, when the gamepad reports both of its axes.
    pub stick: Option<Stick>,
    /// The crouch button (right trigger) is held.
    pub crouch_held: bool,
    /// The wrench button (west) went down in this frame.
    pub wrench_pressed: bool,
    /// The jump button (south) went down in this frame.
    pub jump_pressed: bool,
    /// The jump button is held.
    pub jump_held: bool,
}

/// What the engine side measures for the gamepad routine.
#[derive(Clone, Copy, Debug, PartialEq, Eq)]
pub struct Senses {
    /// The absolute cosine of the player's facing angle less that of the
    /// stick's angle seen from the camera, in ten-thousandths, or `None` when
    /// it is not a number (the stick is not read, or rests at the centre).
    pub turn_gap: Option<i32>,
    /// The velocity is zero once its small components are snapped to zero.
    pub at_rest: bool,
    pub now: Millis,
}

/// What becomes of the heading.
#[derive(Clone, Copy, Debug, PartialEq, Eq)]
pub enum Heading {
    Keep,
    /// It becomes the direction the player faces.
    Forward,
    Zero,
}

/// What the gamepad routine asks of the engine side.
#[derive(Clone, Copy, Debug, PartialEq, Eq)]
pub struct Command {
    pub heading: Heading,
    /// `Move` or `Swing1`.
    pub stride: Option<MovementAction>,
    /// A jump of some kind.
    pub leap: Option<MovementAction>,
    /// The push that carries a long jump on.
    pub carry: bool,
    /// A wrench hitbox is to be placed in front of the player.
    pub spawn_hitbox: bool,
}

/// How the player turns toward the stick.
#[derive(Clone, Copy, Debug, PartialEq, Eq)]
pub enum LookTurn {
    Quick,
    Slow,
}

/// The stick steers the heading: neither a swing nor a long jump holds it.
pub open spec fn reads_stick(s: PlayerState) -> bool {
    s.swing is None && !s.long_jump
}

/// The stick reading that steers this frame.
pub open spec fn steering_stick(s: PlayerState, pad: Pad) -> Option<Stick> {
    if pad.connected && reads_stick(s) {
        pad.stick
    } else {
        None
    }
}

/// Whether the heading is set once the stick has been read.
pub open spec fn heading_after(s: PlayerState, pad: Pad) -> bool {
    match steering_stick(s, pad) {
        Some(st) => if s.side_flip is None {
            st.tilted()
        } else {
            s.heading_set
        },
        None => s.heading_set,
    }
}

/// With a heading, the player walks unless it crouches, long jumps or flips.
pub open spec fn walks(s: PlayerState) -> bool {
    !s.crouch && !s.long_jump && s.side_flip is None
}

/// The jump that the buttons ask for, if any.
///
/// Standing up, a press makes a jump from the ground before any other jump,
/// or a double jump soon after the first jump. Crouching on the ground, a
/// press makes a side flip when the stick points well away from the facing,
/// else a high jump from rest, else a long jump; a side flip in progress
/// allows neither of the latter two.
pub open spec fn leap_of(s: PlayerState, pad: Pad, sense: Senses) -> Option<MovementAction> {
    if !pad.connected || !pad.jump_pressed {
        None
    } else if !pad.crouch_held {
        if s.jump_counter.counter == 0 && s.grounded {
            Some(MovementAction::Jump)
        } else if 0 < s.jump_counter.counter < 2 && sense.now < s.jump_counter.jump_time
            + DOUBLE_JUMP_WINDOW {
            Some(MovementAction::DoubleJump)
        } else {
            None
        }
    } else if !s.grounded {
        None
    } else if sense.turn_gap matches Some(g) && (g < -FLIP_GAP || g > FLIP_GAP) {
        if steering_stick(s, pad) matches Some(st) && st.x < 0 {
            Some(MovementAction::SideFlip(Side::Left))
        } else {
            Some(MovementAction::SideFlip(Side::Right))
        }
    } else if s.side_flip is Some {
        None
    } else if sense.at_rest {
        Some(MovementAction::HighJump)
    } else {
        Some(MovementAction::LongJumpStart)
    }
}

/// Holding jump while falling on no move of its own glides.
pub open spec fn may_glide(s: PlayerState) -> bool {
    s.falling && !s.jump && !s.double_jump && !s.high_jump && !s.long_jump
}

/// The state after one frame of the gamepad routine.
pub open spec fn after_pad(s: PlayerState, pad: Pad, sense: Senses) -> PlayerState {
    let heading = heading_after(s, pad);
    let leap = leap_of(s, pad, sense);
    PlayerState {
        heading_set: heading,
        idle: if !heading { true } else if walks(s) { false } else { s.idle },
        walking: if !heading { false } else if walks(s) { true } else { s.walking },
        crouch: pad.crouch_held && s.grounded && s.side_flip is None,
        swing: if pad.wrench_pressed && s.swing is None {
            Some(Swing1 { swing_time: sense.now })
        } else {
            s.swing
        },
        jump: match leap {
            Some(MovementAction::Jump) => true,
            Some(MovementAction::DoubleJump) => false,
            _ => s.jump,
        },
        double_jump: leap == Some(MovementAction::DoubleJump) || s.double_jump,
        side_flip: if leap matches Some(MovementAction::SideFlip(_)) {
            Some(SideFlip(sense.now))
        } else {
            s.side_flip
        },
        high_jump: leap == Some(MovementAction::HighJump) || s.high_jump,
        long_jump: leap == Some(MovementAction::LongJumpStart) || s.long_jump,
        gliding: if may_glide(s) { pad.jump_held } else { s.gliding },
        ..s
    }
}

/// The command that one frame of the gamepad routine gives.
pub open spec fn pad_command(s: PlayerState, pad: Pad, sense: Senses) -> Command {
    let heading = heading_after(s, pad);
    Command {
        heading: match steering_stick(s, pad) {
            Some(st) => if s.side_flip is Some {
                Heading::Keep
            } else if st.tilted() {
                Heading::Forward
            } else {
                Heading::Zero
            },
            None => Heading::Keep,
        },
        stride: if !heading {
            if s.swing is Some { Some(MovementAction::Swing1) } else { None }
        } else if walks(s) {
            Some(MovementAction::Move)
        } else {
            None
        },
        leap: leap_of(s, pad, sense),
        carry: s.long_jump && !s.grounded,
        spawn_hitbox: pad.wrench_pressed && s.swing is None,
    }
}

impl Command {
    /// The movement actions of the command, in the order they apply.
    pub fn actions(&self) -> (r: Vec<MovementAction>)
        ensures
            r@ == seq_of(self.stride) + seq_of(self.leap) + if self.carry {
                seq![MovementAction::LongJump]
            } else {
                Seq::empty()
            },
    {
        let mut r: Vec<MovementAction> = Vec::new();
        if let Some(a) = self.stride {
            r.push(a);
        }
        if let Some(a) = self.leap {
            r.push(a);
        }
        if self.carry {
            r.push(MovementAction::LongJump);
        }
        proof {
            assert(r@ =~= seq_of(self.stride) + seq_of(self.leap) + if self.carry {
                seq![MovementAction::LongJump]
            } else {
                Seq::empty()
            });
        }
        r
    }
}

/// The actions of an optional one: none or just it.
pub open spec fn seq_of(a: Option<MovementAction>) -> Seq<MovementAction> {
    match a {
        Some(x) => seq![x],
        None => Seq::empty(),
    }
}

impl PlayerState {
    /// Ground contact: touching the ground after a fall is a landing, which
    /// sets the grounded marker, resets the jump counter and ends falling,
    /// gliding, side flips and long jumps. Off the ground the player stops
    /// standing and walking and falls, unless a side flip carries it.
    pub fn update_grounded(&mut self, on_ground: bool)
        ensures
            *final(self) == if on_ground {
                if old(self).falling {
                    PlayerState {
                        grounded: true,
                        jump_counter: JumpCounter { counter: 0, ..old(self).jump_counter },
                        falling: false,
                        gliding: false,
                        side_flip: None,
                        long_jump: false,
                        ..*old(self)
                    }
                } else {
                    *old(self)
                }
            } else {
                PlayerState {
                    grounded: false,
                    idle: false,
                    walking: false,
                    falling: old(self).falling || old(self).side_flip is None,
                    ..*old(self)
                }
            },
    {
        if on_ground {
            if self.falling {
                *self = PlayerState {
                    grounded: true,
                    jump_counter: JumpCounter { counter: 0, ..self.jump_counter },
                    falling: false,
                    gliding: false,
                    side_flip: None,
                    long_jump: false,
                    ..*self
                };
            }
        } else {
            let falling = self.falling || self.side_flip.is_none();
            *self = PlayerState { grounded: false, idle: false, walking: false, falling, ..*self };
        }
    }

    /// Ends a wrench swing once `SWING_TIME` has passed since it began.
    pub fn handle_wrench_swing(&mut self, now: Millis)
        ensures
            *final(self) == match old(self).swing {
                Some(sw) => if passed(now as int, sw.swing_time as int, SWING_TIME as int) {
                    PlayerState { swing: None, ..*old(self) }
                } else {
                    *old(self)
                },
                None => *old(self),
            },
    {
        if let Some(sw) = self.swing {
            if has_passed(now, sw.swing_time, SWING_TIME) {
                self.swing = None;
            }
        }
    }

    /// Whether the stick steers the heading this frame.
    pub fn reads_stick(&self) -> (r: bool)
        ensures
            r == reads_stick(*self),
    {
        self.swing.is_none() && !self.long_jump
    }

    /// The wrench hitbox goes once the swing is over.
    pub fn hitbox_expired(&self) -> (r: bool)
        ensures
            r == (self.swing is None),
    {
        self.swing.is_none()
    }

    /// Turning toward the stick: a stick beyond the dead zone turns the
    /// player, slowly while crouching. Long jumps, swings and side flips hold
    /// the facing.
    pub fn player_look_at(&self, pad: &Pad) -> (r: Option<LookTurn>)
        ensures
            r == if !pad.connected || self.long_jump || self.swing is Some || self.side_flip is Some {
                None
            } else {
                match pad.stick {
                    Some(st) => if st.tilted() {
                        Some(if self.crouch { LookTurn::Slow } else { LookTurn::Quick })
                    } else {
                        None
                    },
                    None => None,
                }
            },
    {
        if !pad.connected || self.long_jump || self.swing.is_some() || self.side_flip.is_some() {
            return None;
        }
        match pad.stick {
            Some(st) => if st.is_tilted() {
                Some(if self.crouch { LookTurn::Slow } else { LookTurn::Quick })
            } else {
                None
            },
            None => None,
        }
    }

    /// One frame of the gamepad: steering, crouching, the wrench, jumps of
    /// every kind and gliding, all decided on the state as the frame found it
    /// (see `after_pad` and `pad_command`). Without a gamepad nothing happens.
    pub fn gamepad_input(&mut self, pad: &Pad, sense: &Senses) -> (r: Command)
        ensures
            pad.connected ==> *final(self) == after_pad(*old(self), *pad, *sense),
            pad.connected ==> r == pad_command(*old(self), *pad, *sense),
            !pad.connected ==> *final(self) == *old(self),
            !pad.connected ==> r == (Command {
                heading: Heading::Keep,
                stride: None,
                leap: None,
                carry: false,
                spawn_hitbox: false,
            }),
    {
        let none = Command { heading: Heading::Keep, stride: None, leap: None, carry: false, spawn_hitbox: false };
        if !pad.connected {
            return none;
        }
        let s = *self;
        let reads = s.swing.is_none() && !s.long_jump;
        // steering
        let mut heading_cmd = Heading::Keep;
        let mut heading = s.heading_set;
        let mut stick_left = false;
        if reads {
            if let Some(st) = pad.stick {
                stick_left = st.x < 0;
                if s.side_flip.is_none() {
                    if st.is_tilted() {
                        heading_cmd = Heading::Forward;
                        heading = true;
                    } else {
                        heading_cmd = Heading::Zero;
                        heading = false;
                    }
                }
            }
        }
        let walks = !s.crouch && !s.long_jump && s.side_flip.is_none();
        let mut idle = s.idle;
        let mut walking = s.walking;
        let mut stride = None;
        if !heading {
            idle = true;
            walking = false;
            if s.swing.is_some() {
                stride = Some(MovementAction::Swing1);
            }
        } else if walks {
            walking = true;
            idle = false;
            stride = Some(MovementAction::Move);
        }
        // the wrench
        let spawn_hitbox = pad.wrench_pressed && s.swing.is_none();
        let swing = if spawn_hitbox { Some(Swing1 { swing_time: sense.now }) } else { s.swing };
        // jumps
        let leap = if !pad.jump_pressed {
            None
        } else if !pad.crouch_held {
            if s.jump_counter.counter == 0 && s.grounded {
                Some(MovementAction::Jump)
            } else if s.jump_counter.counter < 2 && s.jump_counter.counter > 0 && is_within(
                sense.now,
                s.jump_counter.jump_time,
                DOUBLE_JUMP_WINDOW,
            ) {
                Some(MovementAction::DoubleJump)
            } else {
                None
            }
        } else if !s.grounded {
            None
        } else if match sense.turn_gap {
            Some(g) => g < -FLIP_GAP || g > FLIP_GAP,
            None => false,
        } {
            if stick_left {
                Some(MovementAction::SideFlip(Side::Left))
            } else {
                Some(MovementAction::SideFlip(Side::Right))
            }
        } else if s.side_flip.is_some() {
            None
        } else if sense.at_rest {
            Some(MovementAction::HighJump)
        } else {
            Some(MovementAction::LongJumpStart)
        };
        let jump = match leap {
            Some(MovementAction::Jump) => true,
            Some(MovementAction::DoubleJump) => false,
            _ => s.jump,
        };
        let double_jump = match leap {
            Some(MovementAction::DoubleJump) => true,
            _ => s.double_jump,
        };
        let side_flip = match leap {
            Some(MovementAction::SideFlip(_)) => Some(SideFlip(sense.now)),
            _ => s.side_flip,
        };
        let high_jump = match leap {
            Some(MovementAction::HighJump) => true,
            _ => s.high_jump,
        };
        let long_jump = match leap {
            Some(MovementAction::LongJumpStart) => true,
            _ => s.long_jump,
        };
        let gliding = if s.falling && !s.jump && !s.double_jump && !s.high_jump && !s.long_jump {
            pad.jump_held
        } else {
            s.gliding
        };
        *self = PlayerState {
            heading_set: heading,
            idle,
            walking,
            crouch: pad.crouch_held && s.grounded && s.side_flip.is_none(),
            swing,
            jump,
            double_jump,
            side_flip,
            high_jump,
            long_jump,
            gliding,
            ..s
        };
        Command {
            heading: heading_cmd,
            stride,
            leap,
            carry: s.long_jump && !s.grounded,
            spawn_hitbox,
        }
    }
}

} // verus!
