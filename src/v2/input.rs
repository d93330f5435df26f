use vstd::prelude::*;

use crate::clock::{has_passed, is_within, passed, Millis};
use crate::stick::{leans_left_of, leans_right_of, Stick};
use crate::jumps::{JumpCounter, Side};
use crate::v2::movement::MovementAction;
use crate::v2::state::{Gravity, PlayerState};

verus! {

/// How far, in millidegrees, the stick must point away from the player's
/// heading for a crouching jump to become a side flip; closer than that it
/// becomes a long jump.
pub const FLIP_ANGLE: i32 = 25_000;

/// Speed, in thousandths of a unit per second, that separates a long jump
/// (faster) from a high jump (slower).
pub const LEAP_SPEED: i64 = 2000;

/// Time after a jump within which a second press makes a double jump.
pub const DOUBLE_JUMP_WINDOW: Millis = 650;

/// Time after which a long jump ends.
pub const LONGJUMP_TIME: Millis = 1450;

/// Time after which a high jump ends.
pub const HIGHJUMP_TIME: Millis = 1420;

/// Time after which a high jump turns into a slow float down.
pub const HIGHJUMP_FLOAT: Millis = 700;

/// What the gamepad reports in one frame.
#[derive(Clone, Copy, Debug, PartialEq, Eq)]
pub struct Pad {
    /// A gamepad is connected; when not, every other field is ignored.
    pub connected: bool,
    /// The left stick, when the gamepad reports both of its axes.
    pub stick: Option<Stick>,
    /// The jump button (south) is held.
    pub jump_held: bool,
    /// The jump button went down in this frame.
    pub jump_pressed: bool,
    /// The crouch button (right trigger) is held.
    pub crouch_held: bool,
    /// The strafe button (left trigger) is held.
    pub strafe_held: bool,
    /// The wrench button (west) went down in this frame.
    pub swing_pressed: bool,
    /// The fire button (east) is held.
    pub fire_held: bool,
}

impl Pad {
    /// The stick of a connected gamepad.
    pub open spec fn stick_read(&self) -> Option<Stick> {
        if self.connected {
            self.stick
        } else {
            None
        }
    }
}

/// A sound that a move starts.
#[derive(Clone, Copy, Debug, PartialEq, Eq)]
pub enum Sound {
    /// The jump sound, played once.
    Jump,
    /// The double jump and side flip sound, played once.
    Flip,
    /// The whoosh of a long or high jump, played once.
    Glide,
    /// The whoosh of gliding, looped until gliding stops.
    GlideLoop,
}

/// What one routine asks of the engine side.
#[derive(Clone, Copy, Debug, PartialEq, Eq)]
pub struct Reaction {
    /// A movement to apply.
    pub action: Option<MovementAction>,
    /// A sound to start.
    pub sound: Option<Sound>,
    /// Stop the horizontal velocity at once.
    pub halt: bool,
    /// Set the heading to where the player faces.
    pub face_forward: bool,
    /// Stop the looped gliding sounds started in earlier frames.
    pub silence_glide: bool,
}

impl Reaction {
    /// The reaction asks for nothing.
    pub open spec fn is_idle(&self) -> bool {
        self.action.is_none() && self.sound.is_none() && !self.halt && !self.face_forward
            && !self.silence_glide
    }

    /// Whether the reaction asks for nothing.
    pub fn is_none(&self) -> (r: bool)
        ensures
            r == self.is_idle(),
    {
        self.action.is_none() && self.sound.is_none() && !self.halt && !self.face_forward
            && !self.silence_glide
    }

    /// Nothing to do.
    pub fn none() -> (r: Reaction)
        ensures
            r.is_idle(),
    {
        Reaction { action: None, sound: None, halt: false, face_forward: false, silence_glide: false }
    }

    /// The reaction of one movement with one sound.
    pub open spec fn with_spec(action: MovementAction, sound: Sound) -> Reaction {
        Reaction {
            action: Some(action),
            sound: Some(sound),
            halt: false,
            face_forward: false,
            silence_glide: false,
        }
    }

    /// One movement with one sound.
    pub fn with(action: MovementAction, sound: Sound) -> (r: Reaction)
        ensures
            r == Reaction::with_spec(action, sound),
    {
        Reaction {
            action: Some(action),
            sound: Some(sound),
            halt: false,
            face_forward: false,
            silence_glide: false,
        }
    }
}

/// The side that a side flip goes to, when the stick asks for one.
///
/// Crouching without strafing, the angle between the stick and the heading
/// decides; while strafing, the stick's own sideways lean does, on the ground.
pub open spec fn flip_side(s: PlayerState, pad: Pad, heading_offset: Option<i32>) -> Option<Side> {
    match pad.stick_read() {
        Some(st) => {
            if !st.tilted_on_both() {
                None
            } else if !s.strafe {
                if s.crouch && pad.jump_pressed && heading_offset is Some {
                    if heading_offset->0 > FLIP_ANGLE {
                        Some(Side::Right)
                    } else if heading_offset->0 < -FLIP_ANGLE {
                        Some(Side::Left)
                    } else {
                        None
                    }
                } else {
                    None
                }
            } else if pad.jump_pressed && s.grounded {
                if leans_right_of(st.x as int, st.y as int) {
                    Some(Side::Right)
                } else if leans_left_of(st.x as int, st.y as int) {
                    Some(Side::Left)
                } else {
                    None
                }
            } else {
                None
            }
        },
        None => None,
    }
}

/// How the player turns this frame.
#[derive(Clone, Copy, Debug, PartialEq, Eq)]
pub enum Turn {
    /// No turn.
    Hold,
    /// Toward the stick, quickly.
    Quick,
    /// Toward the stick, slowly (while crouching).
    Slow,
    /// To face away from the camera.
    FaceCamera,
}

/// What becomes of the player's heading, the direction it walks in.
#[derive(Clone, Copy, Debug, PartialEq, Eq)]
pub enum Heading {
    /// It stays as it was.
    Keep,
    /// It becomes the direction the player faces after turning.
    Forward,
    /// It becomes zero: the player stands.
    Zero,
    /// It becomes the stick's direction seen from the camera.
    Strafe,
}

/// What walking or strafing asks of the engine side.
#[derive(Clone, Copy, Debug, PartialEq, Eq)]
pub struct Steering {
    pub turn: Turn,
    pub heading: Heading,
    /// A `Walk` movement follows, along the heading.
    pub walk: bool,
}

/// A crouching jump at speed, with the stick close to the heading, starts a
/// long jump.
pub open spec fn longjump_starts(s: PlayerState, pad: Pad, heading_offset: Option<i32>, speed: i64) -> bool {
    &&& s.crouch
    &&& pad.jump_pressed
    &&& speed > LEAP_SPEED
    &&& heading_offset matches Some(o) && -FLIP_ANGLE < o < FLIP_ANGLE
}

/// The jump counter once a long or high jump has begun at `now`: it goes to
/// two, so that no double jump follows.
pub open spec fn leap(now: Millis) -> JumpCounter {
    JumpCounter { counter: 2, jump_time: now }
}

/// A crouching jump from (almost) a standstill starts a high jump.
pub open spec fn highjump_starts(s: PlayerState, pad: Pad, speed: i64) -> bool {
    s.crouch && pad.jump_pressed && speed < LEAP_SPEED
}

/// The player is airborne on no move of its own, so holding jump glides.
pub open spec fn may_glide(s: PlayerState) -> bool {
    !s.jump && !s.double_jump && !s.sideflip_l && !s.sideflip_r && !s.grounded && !s.longjump
        && !s.highjump
}

impl PlayerState {
    /// Ground contact: touching the ground sets the grounded marker and ends
    /// falling and gliding; touching it after a fall is a landing, which also
    /// ends side flips and long jumps and resets the jump counter. Off the
    /// ground the player falls.
    pub fn update_grounded(&mut self, on_ground: bool)
        ensures
            *final(self) == if !on_ground {
                PlayerState { grounded: false, falling: true, ..*old(self) }
            } else if old(self).falling {
                PlayerState {
                    falling: false,
                    glide: false,
                    grounded: true,
                    sideflip_l: false,
                    sideflip_r: false,
                    land: true,
                    longjump: false,
                    jump_counter: JumpCounter { counter: 0, ..old(self).jump_counter },
                    ..*old(self)
                }
            } else {
                PlayerState { falling: false, glide: false, grounded: true, ..*old(self) }
            },
    {
        if on_ground {
            let was_falling = self.falling;
            *self = PlayerState { falling: false, glide: false, grounded: true, ..*self };
            if was_falling {
                *self = PlayerState {
                    sideflip_l: false,
                    sideflip_r: false,
                    land: true,
                    longjump: false,
                    jump_counter: JumpCounter { counter: 0, ..self.jump_counter },
                    ..*self
                };
            }
        } else {
            *self = PlayerState { grounded: false, falling: true, ..*self };
        }
    }

    /// Crouching: the crouch button held on the ground crouches (and ends a
    /// landing); otherwise the player stands up. Without a gamepad nothing
    /// changes.
    pub fn crouch(&mut self, pad: &Pad)
        ensures
            *final(self) == if !pad.connected {
                *old(self)
            } else if pad.crouch_held && old(self).grounded {
                PlayerState { crouch: true, land: false, ..*old(self) }
            } else {
                PlayerState { crouch: false, ..*old(self) }
            },
    {
        if pad.connected {
            if pad.crouch_held && self.grounded {
                *self = PlayerState { crouch: true, land: false, ..*self };
            } else {
                *self = PlayerState { crouch: false, ..*self };
            }
        }
    }

    /// Jumping: a press on the ground, standing, before any jump since the
    /// last landing, starts a jump and ends walking.
    pub fn jump(&mut self, pad: &Pad) -> (r: Reaction)
        ensures
            if pad.connected && !old(self).crouch && pad.jump_pressed && old(self).jump_counter.counter
                < 1 && old(self).grounded {
                &&& *final(self) == (PlayerState { jump: true, walk: false, ..*old(self) })
                &&& r == Reaction::with_spec(MovementAction::Jump, Sound::Jump)
            } else {
                *final(self) == *old(self) && r.is_idle()
            },
    {
        if pad.connected && !self.crouch && pad.jump_pressed && self.jump_counter.counter < 1
            && self.grounded {
            *self = PlayerState { jump: true, walk: false, ..*self };
            Reaction::with(MovementAction::Jump, Sound::Jump)
        } else {
            Reaction::none()
        }
    }

    /// Double jumping: a press after exactly one jump, less than
    /// `DOUBLE_JUMP_WINDOW` after it began, turns the jump into a double jump.
    pub fn doublejump(&mut self, pad: &Pad, now: Millis) -> (r: Reaction)
        ensures
            if pad.connected && pad.jump_pressed && 0 < old(self).jump_counter.counter < 2 && now
                < old(self).jump_counter.jump_time + DOUBLE_JUMP_WINDOW {
                &&& *final(self) == (PlayerState { jump: false, double_jump: true, ..*old(self) })
                &&& r == Reaction::with_spec(MovementAction::DoubleJump, Sound::Flip)
            } else {
                *final(self) == *old(self) && r.is_idle()
            },
    {
        if pad.connected && pad.jump_pressed && self.jump_counter.counter < 2
            && self.jump_counter.counter > 0 && is_within(
            now,
            self.jump_counter.jump_time,
            DOUBLE_JUMP_WINDOW,
        ) {
            *self = PlayerState { jump: false, double_jump: true, ..*self };
            Reaction::with(MovementAction::DoubleJump, Sound::Flip)
        } else {
            Reaction::none()
        }
    }

    /// High jumps: a crouching jump from (almost) a standstill starts one
    /// with a first push; after `HIGHJUMP_FLOAT` a second, weaker push follows
    /// each frame under lighter gravity, and after `HIGHJUMP_TIME` it ends.
    /// Outside a high jump gravity returns to normal. Long jumps and side
    /// flips leave all of this alone.
    pub fn highjump(&mut self, pad: &Pad, speed: i64, now: Millis) -> (r: Reaction)
        ensures
            ({
                let starts = highjump_starts(*old(self), *pad, speed);
                let started = if starts {
                    PlayerState { highjump: true, jump_counter: leap(now), ..*old(self) }
                } else {
                    *old(self)
                };
                let t = started.jump_counter.jump_time as int;
                if old(self).longjump || old(self).sideflip_l || old(self).sideflip_r || !pad.connected {
                    *final(self) == *old(self) && r.is_idle()
                } else if !old(self).highjump {
                    &&& *final(self) == (PlayerState { gravity: Gravity::Normal, ..started })
                    &&& if starts {
                        r == Reaction::with_spec(MovementAction::Highjump1, Sound::Glide)
                    } else {
                        r.is_idle()
                    }
                } else if passed(now as int, t, HIGHJUMP_TIME as int) {
                    *final(self) == (PlayerState { highjump: false, ..started }) && r.is_idle()
                } else if passed(now as int, t, HIGHJUMP_FLOAT as int) {
                    &&& *final(self) == (PlayerState { gravity: Gravity::HighjumpFloat, ..started })
                    &&& r == (Reaction {
                        action: Some(MovementAction::Highjump2),
                        sound: None,
                        halt: false,
                        face_forward: false,
                        silence_glide: false,
                    })
                } else {
                    &&& *final(self) == started
                    &&& if starts {
                        r == Reaction::with_spec(MovementAction::Highjump1, Sound::Glide)
                    } else {
                        r.is_idle()
                    }
                }
            }),
    {
        if self.longjump || self.sideflip_l || self.sideflip_r || !pad.connected {
            return Reaction::none();
        }
        let was_highjumping = self.highjump;
        let starts = self.crouch && pad.jump_pressed && speed < LEAP_SPEED;
        let mut r = Reaction::none();
        if starts {
            *self = PlayerState { highjump: true, jump_counter: JumpCounter { counter: 2, jump_time: now }, ..*self };
            r = Reaction::with(MovementAction::Highjump1, Sound::Glide);
        }
        if was_highjumping {
            if has_passed(now, self.jump_counter.jump_time, HIGHJUMP_TIME) {
                *self = PlayerState { highjump: false, ..*self };
            } else if has_passed(now, self.jump_counter.jump_time, HIGHJUMP_FLOAT) {
                *self = PlayerState { gravity: Gravity::HighjumpFloat, ..*self };
                r = Reaction {
                    action: Some(MovementAction::Highjump2),
                    sound: None,
                    halt: false,
                    face_forward: false,
                    silence_glide: false,
                };
            }
        } else {
            *self = PlayerState { gravity: Gravity::Normal, ..*self };
        }
        r
    }

    /// Gliding: airborne on no move of its own, the player glides while jump
    /// is held (starting the gliding sound when it was not gliding) and stops
    /// gliding when it is let go. Gliding sounds from earlier frames stop
    /// whenever the player was not gliding.
    pub fn gliding(&mut self, pad: &Pad) -> (r: Reaction)
        ensures
            if !pad.connected {
                *final(self) == *old(self) && r.is_idle()
            } else {
                &&& *final(self) == if !may_glide(*old(self)) {
                    *old(self)
                } else {
                    PlayerState { glide: pad.jump_held, ..*old(self) }
                }
                &&& r == (Reaction {
                    action: if may_glide(*old(self)) && pad.jump_held { Some(MovementAction::Gliding) } else { None },
                    sound: if may_glide(*old(self)) && pad.jump_held && !old(self).glide {
                        Some(Sound::GlideLoop)
                    } else {
                        None
                    },
                    halt: false,
                    face_forward: false,
                    silence_glide: !old(self).glide,
                })
            },
    {
        if !pad.connected {
            return Reaction::none();
        }
        let was_gliding = self.glide;
        let mut action = None;
        let mut sound = None;
        if !self.jump && !self.double_jump && !self.sideflip_l && !self.sideflip_r && !self.grounded
            && !self.longjump && !self.highjump {
            if pad.jump_held {
                self.glide = true;
                action = Some(MovementAction::Gliding);
                if !was_gliding {
                    sound = Some(Sound::GlideLoop);
                }
            } else {
                self.glide = false;
            }
        }
        Reaction { action, sound, halt: false, face_forward: false, silence_glide: !was_gliding }
    }

    /// Long jumps: a crouching jump at speed with the stick pointing along the
    /// heading starts one; it ends `LONGJUMP_TIME` after it began, and while it
    /// lasts the heading follows where the player faces. Outside a long jump
    /// gravity returns to normal. Nothing happens during a high jump, nor
    /// without a stick reading.
    pub fn longjump(&mut self, pad: &Pad, heading_offset: Option<i32>, speed: i64, now: Millis) -> (r: Reaction)
        ensures
            ({
                let starts = longjump_starts(*old(self), *pad, heading_offset, speed);
                let started = if starts {
                    PlayerState { longjump: true, jump_counter: leap(now), ..*old(self) }
                } else {
                    *old(self)
                };
                if old(self).highjump || pad.stick_read() is None {
                    *final(self) == *old(self) && r.is_idle()
                } else {
                    &&& *final(self) == if !old(self).longjump {
                        PlayerState { gravity: Gravity::Normal, ..started }
                    } else if passed(now as int, started.jump_counter.jump_time as int, LONGJUMP_TIME as int) {
                        PlayerState { longjump: false, ..started }
                    } else {
                        started
                    }
                    &&& r == (Reaction {
                        action: if starts { Some(MovementAction::Longjump) } else { None },
                        sound: if starts { Some(Sound::Glide) } else { None },
                        halt: false,
                        face_forward: old(self).longjump,
                        silence_glide: false,
                    })
                }
            }),
    {
        if self.highjump || !pad.connected || pad.stick.is_none() {
            return Reaction::none();
        }
        let was_longjumping = self.longjump;
        let aligned = match heading_offset {
            Some(o) => -FLIP_ANGLE < o && o < FLIP_ANGLE,
            None => false,
        };
        let starts = self.crouch && pad.jump_pressed && speed > LEAP_SPEED && aligned;
        assert(starts == longjump_starts(*old(self), *pad, heading_offset, speed));
        if starts {
            *self = PlayerState { longjump: true, jump_counter: JumpCounter { counter: 2, jump_time: now }, ..*self };
        }
        if was_longjumping {
            let over = has_passed(now, self.jump_counter.jump_time, LONGJUMP_TIME);
            if over {
                *self = PlayerState { longjump: false, ..*self };
            }
        } else {
            *self = PlayerState { gravity: Gravity::Normal, ..*self };
        }
        Reaction {
            action: if starts { Some(MovementAction::Longjump) } else { None },
            sound: if starts { Some(Sound::Glide) } else { None },
            halt: false,
            face_forward: was_longjumping,
            silence_glide: false,
        }
    }

    /// Walking: the stick beyond the dead zone turns the player toward it and
    /// sets the walking marker, with the heading following where the player
    /// faces unless it crouches; a resting stick zeroes the heading and sets
    /// the idle marker. On the ground either clears the double jump marker.
    /// A `Walk` movement follows unless the player crouches. Side flips, long
    /// jumps and strafing (outside a high jump) leave all of this alone.
    pub fn walk(&mut self, pad: &Pad) -> (r: Steering)
        ensures
            if old(self).sideflip_l || old(self).sideflip_r || old(self).longjump || (old(self).strafe
                && !old(self).highjump) {
                *final(self) == *old(self) && r == (Steering { turn: Turn::Hold, heading: Heading::Keep, walk: false })
            } else {
                &&& r.walk == !old(self).crouch
                &&& match pad.stick_read() {
                    Some(st) => if st.tilted() {
                        &&& *final(self) == (PlayerState {
                            land: false,
                            walk: true,
                            double_jump: old(self).double_jump && !old(self).grounded,
                            ..*old(self)
                        })
                        &&& r.turn == if old(self).crouch { Turn::Slow } else { Turn::Quick }
                        &&& r.heading == if old(self).crouch { Heading::Keep } else { Heading::Forward }
                    } else {
                        &&& *final(self) == (PlayerState {
                            idle: true,
                            walk: false,
                            double_jump: old(self).double_jump && !old(self).grounded,
                            ..*old(self)
                        })
                        &&& r.turn == Turn::Hold
                        &&& r.heading == Heading::Zero
                    },
                    None => *final(self) == *old(self) && r.turn == Turn::Hold && r.heading == Heading::Keep,
                }
            },
    {
        if self.sideflip_l || self.sideflip_r || self.longjump || (self.strafe && !self.highjump) {
            return Steering { turn: Turn::Hold, heading: Heading::Keep, walk: false };
        }
        let mut turn = Turn::Hold;
        let mut heading = Heading::Keep;
        if pad.connected {
            if let Some(st) = pad.stick {
                if st.is_tilted() {
                    if !self.crouch {
                        turn = Turn::Quick;
                        heading = Heading::Forward;
                    } else {
                        turn = Turn::Slow;
                    }
                    self.land = false;
                    self.walk = true;
                } else {
                    heading = Heading::Zero;
                    self.idle = true;
                    self.walk = false;
                }
                if self.grounded {
                    self.double_jump = false;
                }
            }
        }
        Steering { turn, heading, walk: !self.crouch }
    }

    /// Strafing: with the strafe button held the player turns to face away
    /// from the camera and walks where the stick points, seen from the
    /// camera; a centred stick zeroes the heading and sets the idle marker. On
    /// the ground either clears the double jump marker. Letting go of the
    /// button clears the strafe marker and nothing else follows. Crouching,
    /// flipping, long or high jumping and gliding leave all of this alone.
    pub fn strafe(&mut self, pad: &Pad) -> (r: Steering)
        ensures
            if old(self).crouch || old(self).sideflip_l || old(self).sideflip_r || old(self).highjump
                || old(self).longjump || old(self).glide {
                *final(self) == *old(self) && r == (Steering { turn: Turn::Hold, heading: Heading::Keep, walk: false })
            } else {
                match pad.stick_read() {
                    Some(st) => if !pad.strafe_held {
                        &&& *final(self) == (PlayerState { strafe: false, ..*old(self) })
                        &&& r == (Steering { turn: Turn::Hold, heading: Heading::Keep, walk: false })
                    } else if !(st.x == 0 && st.y == 0) {
                        &&& *final(self) == (PlayerState {
                            strafe: true,
                            land: false,
                            walk: true,
                            double_jump: old(self).double_jump && !old(self).grounded,
                            ..*old(self)
                        })
                        &&& r == (Steering { turn: Turn::FaceCamera, heading: Heading::Strafe, walk: true })
                    } else {
                        &&& *final(self) == (PlayerState {
                            idle: true,
                            walk: false,
                            double_jump: old(self).double_jump && !old(self).grounded,
                            ..*old(self)
                        })
                        &&& r == (Steering { turn: Turn::FaceCamera, heading: Heading::Zero, walk: true })
                    },
                    None => *final(self) == *old(self) && r == (Steering {
                        turn: Turn::Hold,
                        heading: Heading::Keep,
                        walk: true,
                    }),
                }
            },
    {
        if self.crouch || self.sideflip_l || self.sideflip_r || self.highjump || self.longjump
            || self.glide {
            return Steering { turn: Turn::Hold, heading: Heading::Keep, walk: false };
        }
        if pad.connected {
            if let Some(st) = pad.stick {
                if !pad.strafe_held {
                    self.strafe = false;
                    return Steering { turn: Turn::Hold, heading: Heading::Keep, walk: false };
                }
                let heading = if !st.is_centered() {
                    self.strafe = true;
                    self.land = false;
                    self.walk = true;
                    Heading::Strafe
                } else {
                    self.idle = true;
                    self.walk = false;
                    Heading::Zero
                };
                if self.grounded {
                    self.double_jump = false;
                }
                return Steering { turn: Turn::FaceCamera, heading, walk: true };
            }
        }
        Steering { turn: Turn::Hold, heading: Heading::Keep, walk: true }
    }

    /// Side flips: a crouching jump with the stick held well away from the
    /// heading, or a jump on the ground with the stick leaning sideways while
    /// strafing. The flip marker of that side is set and the jump counter goes
    /// to two, so that no double jump follows; a strafing flip starts from a
    /// standstill.
    ///
    /// `heading_offset` is the angle, in millidegrees, from the stick to the
    /// heading as the camera sees it, or `None` when it is not a number.
    pub fn sideflips(&mut self, pad: &Pad, heading_offset: Option<i32>) -> (r: Reaction)
        requires
            pad.stick matches Some(st) ==> st.wf(),
        ensures
            match flip_side(*old(self), *pad, heading_offset) {
                Some(Side::Right) => {
                    &&& *final(self) == (PlayerState {
                        sideflip_r: true,
                        jump_counter: JumpCounter { counter: 2, ..old(self).jump_counter },
                        ..*old(self)
                    })
                    &&& r == (Reaction {
                        action: Some(MovementAction::Sideflip(Side::Right)),
                        sound: Some(Sound::Flip),
                        halt: old(self).strafe,
                        face_forward: false,
                        silence_glide: false,
                    })
                },
                Some(Side::Left) => {
                    &&& *final(self) == (PlayerState {
                        sideflip_l: true,
                        jump_counter: JumpCounter { counter: 2, ..old(self).jump_counter },
                        ..*old(self)
                    })
                    &&& r == (Reaction {
                        action: Some(MovementAction::Sideflip(Side::Left)),
                        sound: Some(Sound::Flip),
                        halt: old(self).strafe,
                        face_forward: false,
                        silence_glide: false,
                    })
                },
                None => *final(self) == *old(self) && r.is_idle(),
            },
    {
        if !pad.connected {
            return Reaction::none();
        }
        let st = match pad.stick {
            Some(st) => st,
            None => return Reaction::none(),
        };
        if !st.is_tilted_on_both() {
            return Reaction::none();
        }
        let side = if !self.strafe {
            if self.crouch && pad.jump_pressed {
                match heading_offset {
                    Some(o) => {
                        if o > FLIP_ANGLE {
                            Some(Side::Right)
                        } else if o < -FLIP_ANGLE {
                            Some(Side::Left)
                        } else {
                            None
                        }
                    },
                    None => None,
                }
            } else {
                None
            }
        } else if pad.jump_pressed && self.grounded {
            if st.leans_right() {
                Some(Side::Right)
            } else if st.leans_left() {
                Some(Side::Left)
            } else {
                None
            }
        } else {
            None
        };
        match side {
            Some(side) => {
                match side {
                    Side::Right => self.sideflip_r = true,
                    Side::Left => self.sideflip_l = true,
                }
                self.jump_counter.counter = 2;
                Reaction {
                    action: Some(MovementAction::Sideflip(side)),
                    sound: Some(Sound::Flip),
                    halt: self.strafe,
                    face_forward: false,
                    silence_glide: false,
                }
            },
            None => Reaction::none(),
        }
    }
}

} // verus!
