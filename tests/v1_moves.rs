use ratchet::jumps::Side;
use ratchet::stick::Stick;
use ratchet::v1::animation::{animation_selector, playback_of, CurrentAnimation, Pose};
use ratchet::v1::camera::CursorVisible;
use ratchet::v1::input::{Heading, LookTurn, Pad, Senses};
use ratchet::v1::movement::{Damping, MovementAction};
use ratchet::v1::state::{Marker, PlayerState, SideFlip, Swing1};
use ratchet::v1::world::{Bolts, CrateHealth, Damage};

fn pad() -> Pad {
    Pad {
        connected: true,
        stick: Some(Stick { x: 0, y: 0 }),
        crouch_held: false,
        wrench_pressed: false,
        jump_pressed: false,
        jump_held: false,
    }
}

fn senses(now: i64) -> Senses {
    Senses { turn_gap: None, at_rest: false, now }
}

fn grounded() -> PlayerState {
    let mut s = PlayerState::new();
    s.falling = true;
    s.update_grounded(true);
    s
}

#[test]
fn stick_sets_heading_and_walks() {
    let mut s = grounded();
    let mut p = pad();
    p.stick = Some(Stick { x: 3000, y: 0 });
    let c = s.gamepad_input(&p, &senses(0));
    assert_eq!(c.heading, Heading::Forward);
    assert_eq!(c.stride, Some(MovementAction::Move));
    assert_eq!(c.leap, None);
    assert!(s.heading_set && s.walking && !s.idle);
    assert_eq!(c.actions(), vec![MovementAction::Move]);
    p.stick = Some(Stick { x: 0, y: 0 });
    let c = s.gamepad_input(&p, &senses(10));
    assert_eq!(c.heading, Heading::Zero);
    assert_eq!(c.stride, None);
    assert!(!s.heading_set && s.idle && !s.walking);
}

#[test]
fn resting_swing_lunges() {
    let mut s = grounded();
    s.swing = Some(Swing1 { swing_time: 0 });
    let c = s.gamepad_input(&pad(), &senses(100));
    assert_eq!(c.heading, Heading::Keep);
    assert_eq!(c.stride, Some(MovementAction::Swing1));
}

#[test]
fn wrench_press_starts_a_swing() {
    let mut s = grounded();
    let mut p = pad();
    p.wrench_pressed = true;
    let c = s.gamepad_input(&p, &senses(400));
    assert!(c.spawn_hitbox);
    assert_eq!(s.swing, Some(Swing1 { swing_time: 400 }));
    let c = s.gamepad_input(&p, &senses(500));
    assert!(!c.spawn_hitbox);
    assert!(!s.hitbox_expired());
    s.handle_wrench_swing(1010);
    assert!(s.swing.is_some());
    s.handle_wrench_swing(1011);
    assert!(s.swing.is_none());
    assert!(s.hitbox_expired());
}

#[test]
fn jump_and_double_jump_window() {
    let mut s = grounded();
    let mut p = pad();
    p.jump_pressed = true;
    let c = s.gamepad_input(&p, &senses(1000));
    assert_eq!(c.leap, Some(MovementAction::Jump));
    assert!(s.jump);
    s.apply_action(MovementAction::Jump, 1000);
    assert_eq!(s.jump_counter.counter, 1);
    s.update_grounded(false);
    let mut late = s;
    let c = late.gamepad_input(&p, &senses(1670));
    assert_eq!(c.leap, None);
    let c = s.gamepad_input(&p, &senses(1669));
    assert_eq!(c.leap, Some(MovementAction::DoubleJump));
    assert!(!s.jump && s.double_jump);
    s.apply_action(MovementAction::DoubleJump, 1669);
    assert_eq!(s.jump_counter.counter, 2);
    assert_eq!(s.jump_counter.jump_time, 1000);
}

#[test]
fn crouching_jumps() {
    let mut p = pad();
    p.crouch_held = true;
    p.jump_pressed = true;
    // from rest: a high jump
    let mut s = grounded();
    let c = s.gamepad_input(&p, &Senses { turn_gap: Some(100), at_rest: true, now: 0 });
    assert_eq!(c.leap, Some(MovementAction::HighJump));
    assert!(s.high_jump && s.crouch);
    // moving: a long jump
    let mut s = grounded();
    let c = s.gamepad_input(&p, &Senses { turn_gap: Some(-1200), at_rest: false, now: 0 });
    assert_eq!(c.leap, Some(MovementAction::LongJumpStart));
    assert!(s.long_jump);
    // the stick well away from the facing: a side flip, to the left
    let mut s = grounded();
    p.stick = Some(Stick { x: -5000, y: 100 });
    let c = s.gamepad_input(&p, &Senses { turn_gap: Some(1201), at_rest: true, now: 77 });
    assert_eq!(c.leap, Some(MovementAction::SideFlip(Side::Left)));
    assert_eq!(s.side_flip, Some(SideFlip(77)));
    // to the right
    let mut s = grounded();
    p.stick = Some(Stick { x: 5000, y: 100 });
    let c = s.gamepad_input(&p, &Senses { turn_gap: Some(-3000), at_rest: true, now: 77 });
    assert_eq!(c.leap, Some(MovementAction::SideFlip(Side::Right)));
}

#[test]
fn long_jump_is_carried_in_the_air() {
    let mut s = PlayerState::new();
    s.long_jump = true;
    let c = s.gamepad_input(&pad(), &senses(0));
    assert!(c.carry);
    assert_eq!(c.actions(), vec![MovementAction::LongJump]);
}

#[test]
fn gliding_while_falling() {
    let mut s = PlayerState::new();
    s.update_grounded(false);
    assert!(s.falling);
    let mut p = pad();
    p.jump_held = true;
    s.gamepad_input(&p, &senses(0));
    assert!(s.gliding);
    assert!(s.glide_drag());
    p.jump_held = false;
    s.gamepad_input(&p, &senses(1));
    assert!(!s.gliding);
}

#[test]
fn unplugged_pad_changes_nothing() {
    let mut s = grounded();
    let before = s;
    let mut p = pad();
    p.connected = false;
    p.jump_pressed = true;
    let c = s.gamepad_input(&p, &senses(0));
    assert_eq!(s, before);
    assert_eq!(c.actions(), vec![]);
}

#[test]
fn falling_and_landing() {
    let mut s = PlayerState::new();
    s.walking = true;
    s.update_grounded(false);
    assert!(!s.walking && s.falling && !s.grounded);
    s.jump_counter.counter = 2;
    s.long_jump = true;
    s.update_grounded(true);
    assert!(s.grounded && !s.falling && !s.long_jump);
    assert_eq!(s.jump_counter.counter, 0);
}

#[test]
fn side_flip_keeps_the_player_from_falling() {
    let mut s = PlayerState::new();
    s.side_flip = Some(SideFlip(0));
    s.update_grounded(false);
    assert!(!s.falling);
}

#[test]
fn looking_toward_the_stick() {
    let mut s = grounded();
    let mut p = pad();
    p.stick = Some(Stick { x: 0, y: 2001 });
    assert_eq!(s.player_look_at(&p), Some(LookTurn::Quick));
    s.crouch = true;
    assert_eq!(s.player_look_at(&p), Some(LookTurn::Slow));
    s.long_jump = true;
    assert_eq!(s.player_look_at(&p), None);
    s.long_jump = false;
    p.stick = Some(Stick { x: 2000, y: 0 });
    assert_eq!(s.player_look_at(&p), None);
}

#[test]
fn damping_and_counter() {
    let mut s = grounded();
    assert_eq!(s.damping(), Damping::Own);
    s.update_grounded(false);
    assert_eq!(s.damping(), Damping::Air);
    assert_eq!(Damping::Air.fixed_thousandths(), Some(940));
    s.side_flip = Some(SideFlip(3));
    assert_eq!(s.damping(), Damping::Free);
    s.long_jump = true;
    assert_eq!(s.damping(), Damping::Own);
    s.apply_action(MovementAction::LongJumpStart, 900);
    assert_eq!(s.jump_counter.jump_time, 900);
    assert_eq!(s.jump_counter.counter, 0);
}

#[test]
fn animation_names() {
    let mut current = CurrentAnimation("IDLE".to_owned());
    let mut s = PlayerState::new();
    s.falling = true;
    s.gliding = true;
    animation_selector(&s, &mut current);
    assert_eq!(current.0, "GLIDE");
    s.gliding = false;
    animation_selector(&s, &mut current);
    assert_eq!(current.0, "JUMP");
    let mut g = grounded();
    g.walking = true;
    g.swing = Some(Swing1 { swing_time: 1 });
    animation_selector(&g, &mut current);
    assert_eq!(current.0, "SWING1");
    let idle = PlayerState::new();
    let mut other = PlayerState::new();
    other.grounded = true;
    animation_selector(&idle, &mut current);
    animation_selector(&other, &mut current);
    assert_eq!(current.0, "SWING1");
}

#[test]
fn animation_playback_by_name() {
    let walk = playback_of(&CurrentAnimation("WALK".to_owned())).unwrap();
    assert_eq!(walk.clip, 9);
    assert!(walk.repeat && walk.clears_leaps);
    let high = playback_of(&CurrentAnimation("HIGHJUMP".to_owned())).unwrap();
    assert_eq!(high.clip, 6);
    assert_eq!(high.clear_at_end, Some(Marker::HighJump));
    assert_eq!(playback_of(&CurrentAnimation("DANCE".to_owned())), None);
    assert_eq!(Pose::from_name(&"LONGJUMP".to_owned()), Some(Pose::LongJump));
    assert_eq!(Pose::DoubleJump.name(), "DOUBLEJUMP");
    let mut s = PlayerState::new();
    s.high_jump = true;
    s.double_jump = true;
    s.jump = true;
    s.clear_leaps();
    assert!(!s.high_jump && !s.double_jump && s.jump);
    s.clear(Marker::Jump);
    assert!(!s.jump);
}

#[test]
fn crates_break_and_pay() {
    let mut c = CrateHealth(1);
    assert!(!c.is_dead());
    c.take_hit(Damage(1));
    assert_eq!(c, CrateHealth(0));
    assert!(c.is_dead());
    let mut low = CrateHealth(i32::MIN + 1);
    low.take_hit(Damage(5));
    assert_eq!(low, CrateHealth(i32::MIN));
    let mut b = Bolts(10);
    let n = b.collect_crate();
    assert!((60..200).contains(&n));
    assert_eq!(b.0, 10 + n);
    assert!(b.0 >= 70);
}

#[test]
fn cursor_toggles() {
    let mut c = CursorVisible(false);
    assert!(c.update(false));
    assert!(!c.update(true));
    assert_eq!(c, CursorVisible(true));
    assert!(c.update(true));
}
