use vstd::prelude::*;

use crate::v1::state::{Marker, PlayerState};

verus! {

/// The animations of the player, each known by a name.
#[derive(Clone, Copy, Debug, PartialEq, Eq)]
pub enum Pose {
    Idle,
    Jump,
    DoubleJump,
    Walk,
    Swing1,
    Glide,
    Crouch,
    HighJump,
    LongJump,
}

/// The name under which an animation is recorded.
pub open spec fn pose_name(p: Pose) -> Seq<char> {
    match p {
        Pose::Idle => "IDLE"@,
        Pose::Jump => "JUMP"@,
        Pose::DoubleJump => "DOUBLEJUMP"@,
        Pose::Walk => "WALK"@,
        Pose::Swing1 => "SWING1"@,
        Pose::Glide => "GLIDE"@,
        Pose::Crouch => "CROUCH"@,
        Pose::HighJump => "HIGHJUMP"@,
        Pose::LongJump => "LONGJUMP"@,
    }
}

/// The animation being currently played, by name.
pub struct CurrentAnimation(pub String);

/// How an animation is played: the clip's index in the player's clip list,
/// whether it repeats, whether starting it clears the high and double jump
/// markers, and which marker its end clears.
#[derive(Clone, Copy, Debug, PartialEq, Eq)]
pub struct Playback {
    pub clip: usize,
    pub repeat: bool,
    pub clears_leaps: bool,
    pub clear_at_end: Option<Marker>,
}

/// How an animation is played.
pub open spec fn pose_playback(p: Pose) -> Playback {
    match p {
        Pose::Idle => Playback { clip: 3, repeat: true, clears_leaps: true, clear_at_end: None },
        Pose::Jump => Playback { clip: 4, repeat: false, clears_leaps: false, clear_at_end: Some(Marker::Jump) },
        Pose::DoubleJump => Playback {
            clip: 1,
            repeat: false,
            clears_leaps: false,
            clear_at_end: Some(Marker::DoubleJump),
        },
        Pose::Walk => Playback { clip: 9, repeat: true, clears_leaps: true, clear_at_end: None },
        Pose::Swing1 => Playback { clip: 8, repeat: false, clears_leaps: false, clear_at_end: None },
        Pose::Glide => Playback { clip: 2, repeat: true, clears_leaps: false, clear_at_end: None },
        Pose::Crouch => Playback { clip: 0, repeat: false, clears_leaps: false, clear_at_end: None },
        Pose::HighJump => Playback {
            clip: 6,
            repeat: false,
            clears_leaps: false,
            clear_at_end: Some(Marker::HighJump),
        },
        Pose::LongJump => Playback {
            clip: 5,
            repeat: false,
            clears_leaps: false,
            clear_at_end: Some(Marker::LongJump),
        },
    }
}

impl Pose {
    /// The animation's name.
    pub fn name(&self) -> (r: &'static str)
        ensures
            r@ == pose_name(*self),
    {
        match self {
            Pose::Idle => "IDLE",
            Pose::Jump => "JUMP",
            Pose::DoubleJump => "DOUBLEJUMP",
            Pose::Walk => "WALK",
            Pose::Swing1 => "SWING1",
            Pose::Glide => "GLIDE",
            Pose::Crouch => "CROUCH",
            Pose::HighJump => "HIGHJUMP",
            Pose::LongJump => "LONGJUMP",
        }
    }

    /// The animation of a name, or `None` for a name of none of them.
    pub fn from_name(name: &String) -> (r: Option<Pose>)
        ensures
            r matches Some(p) ==> pose_name(p) == name@,
            r is None ==> forall|p: Pose| pose_name(p) != name@,
    {
        proof {
            reveal_strlit("IDLE");
            reveal_strlit("JUMP");
            reveal_strlit("DOUBLEJUMP");
            reveal_strlit("WALK");
            reveal_strlit("SWING1");
            reveal_strlit("GLIDE");
            reveal_strlit("CROUCH");
            reveal_strlit("HIGHJUMP");
            reveal_strlit("LONGJUMP");
        }
        let poses = [
            Pose::Idle,
            Pose::Jump,
            Pose::DoubleJump,
            Pose::Walk,
            Pose::Swing1,
            Pose::Glide,
            Pose::Crouch,
            Pose::HighJump,
            Pose::LongJump,
        ];
        let mut k: usize = 0;
        while k < 9
            invariant
                0 <= k <= 9,
                poses@ == seq![
                    Pose::Idle,
                    Pose::Jump,
                    Pose::DoubleJump,
                    Pose::Walk,
                    Pose::Swing1,
                    Pose::Glide,
                    Pose::Crouch,
                    Pose::HighJump,
                    Pose::LongJump,
                ],
                forall|i: int| 0 <= i < k ==> pose_name(#[trigger] poses@[i]) != name@,
            decreases 9 - k,
        {
            let candidate = poses[k].name().to_owned();
            if *name == candidate {
                return Some(poses[k]);
            }
            k = k + 1;
        }
        proof {
            assert forall|p: Pose| pose_name(p) != name@ by {
                let i: int = match p {
                    Pose::Idle => 0,
                    Pose::Jump => 1,
                    Pose::DoubleJump => 2,
                    Pose::Walk => 3,
                    Pose::Swing1 => 4,
                    Pose::Glide => 5,
                    Pose::Crouch => 6,
                    Pose::HighJump => 7,
                    Pose::LongJump => 8,
                };
                assert(poses@[i] == p);
            }
        }
        None
    }

    /// How this animation is played.
    pub fn playback(&self) -> (r: Playback)
        ensures
            r == pose_playback(*self),
    {
        let (clip, repeat, clears_leaps, clear_at_end) = match self {
            Pose::Idle => (3, true, true, None),
            Pose::Jump => (4, false, false, Some(Marker::Jump)),
            Pose::DoubleJump => (1, false, false, Some(Marker::DoubleJump)),
            Pose::Walk => (9, true, true, None),
            Pose::Swing1 => (8, false, false, None),
            Pose::Glide => (2, true, false, None),
            Pose::Crouch => (0, false, false, None),
            Pose::HighJump => (6, false, false, Some(Marker::HighJump)),
            Pose::LongJump => (5, false, false, Some(Marker::LongJump)),
        };
        Playback { clip, repeat, clears_leaps, clear_at_end }
    }
}

/// The animation that the markers call for, or `None` when none of the
/// markers that choose one is set (the current animation then stays).
///
/// In the air long jumps come first, then high jumps, jumps, double jumps,
/// and falling (gliding or not). On the ground a swing comes first, then
/// crouching, walking and standing idle.
pub open spec fn chosen_pose(s: PlayerState) -> Option<Pose> {
    if !s.grounded {
        if s.long_jump {
            Some(Pose::LongJump)
        } else if s.high_jump {
            Some(Pose::HighJump)
        } else if s.jump {
            Some(Pose::Jump)
        } else if s.double_jump {
            Some(Pose::DoubleJump)
        } else if s.falling {
            Some(if s.gliding { Pose::Glide } else { Pose::Jump })
        } else {
            None
        }
    } else if s.swing is Some {
        Some(Pose::Swing1)
    } else if s.crouch {
        Some(Pose::Crouch)
    } else if s.walking {
        Some(Pose::Walk)
    } else if s.idle {
        Some(Pose::Idle)
    } else {
        None
    }
}

/// Records the name of the animation that the markers call for, and leaves
/// the current one when they call for none.
pub fn animation_selector(state: &PlayerState, current: &mut CurrentAnimation)
    ensures
        final(current).0@ == match chosen_pose(*state) {
            Some(p) => pose_name(p),
            None => old(current).0@,
        },
{
    let chosen = if !state.grounded {
        if state.long_jump {
            Some(Pose::LongJump)
        } else if state.high_jump {
            Some(Pose::HighJump)
        } else if state.jump {
            Some(Pose::Jump)
        } else if state.double_jump {
            Some(Pose::DoubleJump)
        } else if state.falling {
            Some(if state.gliding { Pose::Glide } else { Pose::Jump })
        } else {
            None
        }
    } else if state.swing.is_some() {
        Some(Pose::Swing1)
    } else if state.crouch {
        Some(Pose::Crouch)
    } else if state.walking {
        Some(Pose::Walk)
    } else if state.idle {
        Some(Pose::Idle)
    } else {
        None
    };
    if let Some(p) = chosen {
        current.0 = p.name().to_owned();
    }
}

/// How the recorded animation is played, or `None` for a name of no
/// animation.
pub fn playback_of(current: &CurrentAnimation) -> (r: Option<Playback>)
    ensures
        r matches Some(pb) ==> exists|p: Pose| pose_name(p) == current.0@ && pb == pose_playback(p),
        r is None ==> forall|p: Pose| pose_name(p) != current.0@,
{
    match Pose::from_name(&current.0) {
        Some(p) => Some(p.playback()),
        None => None,
    }
}

} // verus!
