use vstd::prelude::*;

use crate::v2::state::{Marker, PlayerState};

verus! {

/// The animations of the player.
#[derive(Clone, Copy, Debug, PartialEq, Eq)]
pub enum Animation {
    Idle,
    Jump,
    DoubleJump,
    Land,
    Walk,
    Fall,
    Crouch,
    SideFlipL,
    SideFlipR,
    Longjump,
    Highjump,
    Swing,
}

/// The animation currently being played.
#[derive(Clone, Copy, Debug, PartialEq, Eq)]
pub struct CurrentAnimation(pub Animation);

/// What happens when a clip has played to its end.
#[derive(Clone, Copy, Debug, PartialEq, Eq)]
pub enum Finish {
    /// Nothing: the clip holds its last pose or repeats.
    Stay,
    /// The marker is cleared.
    Clear(Marker),
    /// The marker is cleared and the clip of the given index starts.
    ClearThenPlay(Marker, usize),
}

/// How an animation is played: the clip's index in the player's clip list,
/// the cross-fade into it, whether it repeats, its speed in percent, and what
/// its end brings.
#[derive(Clone, Copy, Debug, PartialEq, Eq)]
pub struct Playback {
    pub clip: usize,
    pub transition_ms: u64,
    pub repeat: bool,
    pub speed_percent: u32,
    pub finish: Finish,
}

/// Index of the idle clip.
pub const IDLE_CLIP: usize = 4;

/// A playback at normal speed with the usual cross-fade of 150 ms.
pub open spec fn plain(clip: usize, repeat: bool, finish: Finish) -> Playback {
    Playback { clip, transition_ms: 150, repeat, speed_percent: 100, finish }
}

impl Animation {
    /// How this animation is played; the swing has no clip of its own.
    pub fn playback(&self) -> (r: Option<Playback>)
        ensures
            r == match *self {
                Animation::Idle => Some(plain(IDLE_CLIP, true, Finish::Stay)),
                Animation::Jump => Some(
                    Playback { clip: 5, transition_ms: 80, repeat: false, speed_percent: 100, finish: Finish::Clear(Marker::Jump) },
                ),
                Animation::DoubleJump => Some(
                    Playback { clip: 1, transition_ms: 80, repeat: false, speed_percent: 100, finish: Finish::Clear(Marker::DoubleJump) },
                ),
                Animation::Land => Some(plain(6, false, Finish::ClearThenPlay(Marker::Land, IDLE_CLIP))),
                Animation::Walk => Some(
                    Playback { clip: 13, transition_ms: 150, repeat: true, speed_percent: 80, finish: Finish::Stay },
                ),
                Animation::Fall => Some(plain(2, true, Finish::Stay)),
                Animation::Crouch => Some(plain(0, false, Finish::Stay)),
                Animation::SideFlipL => Some(plain(8, false, Finish::Clear(Marker::SideflipL))),
                Animation::SideFlipR => Some(plain(9, false, Finish::Clear(Marker::SideflipR))),
                Animation::Longjump => Some(plain(7, false, Finish::Stay)),
                Animation::Highjump => Some(plain(3, false, Finish::Stay)),
                Animation::Swing => None,
            },
    {
        let (clip, transition_ms, repeat, speed_percent, finish) = match self {
            Animation::Idle => (IDLE_CLIP, 150, true, 100, Finish::Stay),
            Animation::Jump => (5, 80, false, 100, Finish::Clear(Marker::Jump)),
            Animation::DoubleJump => (1, 80, false, 100, Finish::Clear(Marker::DoubleJump)),
            Animation::Land => (6, 150, false, 100, Finish::ClearThenPlay(Marker::Land, IDLE_CLIP)),
            Animation::Walk => (13, 150, true, 80, Finish::Stay),
            Animation::Fall => (2, 150, true, 100, Finish::Stay),
            Animation::Crouch => (0, 150, false, 100, Finish::Stay),
            Animation::SideFlipL => (8, 150, false, 100, Finish::Clear(Marker::SideflipL)),
            Animation::SideFlipR => (9, 150, false, 100, Finish::Clear(Marker::SideflipR)),
            Animation::Longjump => (7, 150, false, 100, Finish::Stay),
            Animation::Highjump => (3, 150, false, 100, Finish::Stay),
            Animation::Swing => return None,
        };
        Some(Playback { clip, transition_ms, repeat, speed_percent, finish })
    }
}

/// The animation that the markers call for, or `None` when none of the
/// markers that choose one is set (the current animation then stays).
///
/// On the ground crouching wins over walking, walking over landing and
/// landing over standing idle. In the air side flips come first, then long
/// and high jumps, then jumps, double jumps and falling.
pub open spec fn chosen_animation(s: PlayerState) -> Option<Animation> {
    if s.grounded {
        if s.crouch {
            Some(Animation::Crouch)
        } else if s.walk {
            Some(Animation::Walk)
        } else if s.land {
            Some(Animation::Land)
        } else if s.idle {
            Some(Animation::Idle)
        } else {
            None
        }
    } else if s.sideflip_l {
        Some(Animation::SideFlipL)
    } else if s.sideflip_r {
        Some(Animation::SideFlipR)
    } else if s.longjump {
        Some(Animation::Longjump)
    } else if s.highjump {
        Some(Animation::Highjump)
    } else if s.jump {
        Some(Animation::Jump)
    } else if s.double_jump {
        Some(Animation::DoubleJump)
    } else if s.falling {
        Some(Animation::Fall)
    } else {
        None
    }
}

/// Sets the current animation to the one that the markers call for, and
/// leaves it as it was when they call for none.
pub fn animation_selector(state: &PlayerState, current: &mut CurrentAnimation)
    ensures
        final(current).0 == match chosen_animation(*state) {
            Some(a) => a,
            None => old(current).0,
        },
{
    let chosen = if state.grounded {
        if state.crouch {
            Some(Animation::Crouch)
        } else if state.walk {
            Some(Animation::Walk)
        } else if state.land {
            Some(Animation::Land)
        } else if state.idle {
            Some(Animation::Idle)
        } else {
            None
        }
    } else if state.sideflip_l {
        Some(Animation::SideFlipL)
    } else if state.sideflip_r {
        Some(Animation::SideFlipR)
    } else if state.longjump {
        Some(Animation::Longjump)
    } else if state.highjump {
        Some(Animation::Highjump)
    } else if state.jump {
        Some(Animation::Jump)
    } else if state.double_jump {
        Some(Animation::DoubleJump)
    } else if state.falling {
        Some(Animation::Fall)
    } else {
        None
    };
    if let Some(a) = chosen {
        current.0 = a;
    }
}

} // verus!
