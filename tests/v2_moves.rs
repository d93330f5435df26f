use ratchet::jumps::Side;
use ratchet::stick::Stick;
use ratchet::v2::animation::{animation_selector, Animation, CurrentAnimation, Finish};
use ratchet::v2::input::{Heading, Pad, Reaction, Sound, Turn};
use ratchet::v2::movement::{Damping, MovementAction};
use ratchet::v2::state::{Gravity, Marker, PlayerState};
use ratchet::v2::weapons::{last_shot_time, shoot, Swing};

fn pad() -> Pad {
    Pad {
        connected: true,
        stick: Some(Stick { x: 0, y: 0 }),
        jump_held: false,
        jump_pressed: false,
        crouch_held: false,
        strafe_held: false,
        swing_pressed: false,
        fire_held: false,
    }
}

fn grounded() -> PlayerState {
    let mut s = PlayerState::new();
    s.update_grounded(true);
    s
}

#[test]
fn landing_resets_the_counter() {
    let mut s = PlayerState::new();
    s.update_grounded(false);
    assert!(s.falling && !s.grounded);
    s.jump_counter.counter = 2;
    s.sideflip_r = true;
    s.glide = true;
    s.update_grounded(true);
    assert!(s.grounded && !s.falling && !s.glide && s.land && !s.sideflip_r);
    assert_eq!(s.jump_counter.counter, 0);
}

#[test]
fn touching_ground_without_a_fall_is_no_landing() {
    let mut s = PlayerState::new();
    s.jump_counter.counter = 1;
    s.update_grounded(true);
    assert!(s.grounded && !s.land);
    assert_eq!(s.jump_counter.counter, 1);
}

#[test]
fn crouch_only_on_the_ground() {
    let mut p = pad();
    p.crouch_held = true;
    let mut air = PlayerState::new();
    air.crouch(&p);
    assert!(!air.crouch);
    let mut s = grounded();
    s.land = true;
    s.crouch(&p);
    assert!(s.crouch && !s.land);
    let mut unplugged = p;
    unplugged.connected = false;
    unplugged.crouch_held = false;
    s.crouch(&unplugged);
    assert!(s.crouch);
}

#[test]
fn walking_follows_the_stick() {
    let mut s = grounded();
    s.double_jump = true;
    let mut p = pad();
    p.stick = Some(Stick { x: 0, y: 9000 });
    let r = s.walk(&p);
    assert_eq!(r.turn, Turn::Quick);
    assert_eq!(r.heading, Heading::Forward);
    assert!(r.walk);
    assert!(s.walk && !s.double_jump);
    p.stick = Some(Stick { x: 100, y: -100 });
    let r = s.walk(&p);
    assert_eq!(r.heading, Heading::Zero);
    assert!(s.idle && !s.walk);
}

#[test]
fn crouched_walking_turns_slowly_without_moving() {
    let mut s = grounded();
    s.crouch = true;
    let mut p = pad();
    p.stick = Some(Stick { x: 5000, y: 0 });
    let r = s.walk(&p);
    assert_eq!(r.turn, Turn::Slow);
    assert_eq!(r.heading, Heading::Keep);
    assert!(!r.walk);
}

#[test]
fn strafing_and_letting_go() {
    let mut s = grounded();
    let mut p = pad();
    p.strafe_held = true;
    p.stick = Some(Stick { x: 10, y: 0 });
    let r = s.strafe(&p);
    assert_eq!(r.turn, Turn::FaceCamera);
    assert_eq!(r.heading, Heading::Strafe);
    assert!(s.strafe && s.walk);
    // walking leaves a strafing player alone
    let w = s.walk(&p);
    assert!(!w.walk);
    p.strafe_held = false;
    let r = s.strafe(&p);
    assert!(!r.walk);
    assert!(!s.strafe);
}

#[test]
fn jump_then_double_jump() {
    let mut s = grounded();
    let mut p = pad();
    p.jump_pressed = true;
    let r = s.jump(&p);
    assert_eq!(r.action, Some(MovementAction::Jump));
    assert_eq!(r.sound, Some(Sound::Jump));
    assert!(s.jump);
    s.apply_action(MovementAction::Jump, 5000);
    assert_eq!(s.jump_counter.counter, 1);
    assert_eq!(s.jump_counter.jump_time, 5000);
    // too late for a double jump
    let mut late = s;
    assert!(late.doublejump(&p, 5650).is_none());
    let r = s.doublejump(&p, 5649);
    assert_eq!(r.action, Some(MovementAction::DoubleJump));
    assert_eq!(r.sound, Some(Sound::Flip));
    assert!(!s.jump && s.double_jump);
    s.apply_action(MovementAction::DoubleJump, 5649);
    assert_eq!(s.jump_counter.counter, 2);
    assert!(s.doublejump(&p, 5700).is_none());
}

#[test]
fn no_jump_while_crouching() {
    let mut s = grounded();
    s.crouch = true;
    let mut p = pad();
    p.jump_pressed = true;
    assert!(s.jump(&p).is_none());
    assert!(!s.jump);
}

#[test]
fn crouching_flip_to_the_right() {
    let mut s = grounded();
    s.crouch = true;
    let mut p = pad();
    p.jump_pressed = true;
    p.stick = Some(Stick { x: 7000, y: 7000 });
    let r = s.sideflips(&p, Some(30_000));
    assert_eq!(r.action, Some(MovementAction::Sideflip(Side::Right)));
    assert_eq!(r.sound, Some(Sound::Flip));
    assert!(!r.halt);
    assert!(s.sideflip_r);
    assert_eq!(s.jump_counter.counter, 2);
}

#[test]
fn flip_angle_is_exclusive() {
    let mut s = grounded();
    s.crouch = true;
    let mut p = pad();
    p.jump_pressed = true;
    p.stick = Some(Stick { x: -7000, y: 7000 });
    assert!(s.sideflips(&p, Some(25_000)).is_none());
    assert!(s.sideflips(&p, Some(-25_000)).is_none());
    let r = s.sideflips(&p, Some(-25_001));
    assert_eq!(r.action, Some(MovementAction::Sideflip(Side::Left)));
}

#[test]
fn strafing_flip_halts_first() {
    let mut s = grounded();
    s.strafe = true;
    let mut p = pad();
    p.jump_pressed = true;
    p.stick = Some(Stick { x: -9000, y: 3000 });
    let r = s.sideflips(&p, None);
    assert_eq!(r.action, Some(MovementAction::Sideflip(Side::Left)));
    assert!(r.halt);
    assert!(s.sideflip_l);
}

#[test]
fn no_flip_with_a_stick_in_the_dead_zone() {
    let mut s = grounded();
    s.crouch = true;
    let mut p = pad();
    p.jump_pressed = true;
    p.stick = Some(Stick { x: 9000, y: 1000 });
    assert!(s.sideflips(&p, Some(90_000)).is_none());
}

#[test]
fn long_jump_starts_and_ends() {
    let mut s = grounded();
    s.crouch = true;
    let mut p = pad();
    p.jump_pressed = true;
    p.stick = Some(Stick { x: 0, y: 10000 });
    let r = s.longjump(&p, Some(0), 5000, 2000);
    assert_eq!(r.action, Some(MovementAction::Longjump));
    assert_eq!(r.sound, Some(Sound::Glide));
    assert!(!r.face_forward);
    assert!(s.longjump);
    assert_eq!(s.jump_counter.counter, 2);
    assert_eq!(s.jump_counter.jump_time, 2000);
    s.apply_action(MovementAction::Longjump, 2000);
    assert_eq!(s.gravity, Gravity::Longjump);
    p.jump_pressed = false;
    let r = s.longjump(&p, Some(0), 5000, 3450);
    assert!(r.face_forward);
    assert!(s.longjump);
    s.longjump(&p, Some(0), 5000, 3451);
    assert!(!s.longjump);
    assert_eq!(s.gravity, Gravity::Longjump);
    s.longjump(&p, Some(0), 5000, 3452);
    assert_eq!(s.gravity, Gravity::Normal);
}

#[test]
fn slow_crouching_jump_is_a_high_jump() {
    let mut s = grounded();
    s.crouch = true;
    let mut p = pad();
    p.jump_pressed = true;
    assert!(s.longjump(&p, Some(0), 1000, 0).is_none());
    let r = s.highjump(&p, 1000, 10_000);
    assert_eq!(r.action, Some(MovementAction::Highjump1));
    assert_eq!(r.sound, Some(Sound::Glide));
    assert!(s.highjump);
    s.apply_action(MovementAction::Highjump1, 10_000);
    assert_eq!(s.gravity, Gravity::Highjump);
    p.jump_pressed = false;
    assert!(s.highjump(&p, 0, 10_700).is_none());
    let r = s.highjump(&p, 0, 10_701);
    assert_eq!(r.action, Some(MovementAction::Highjump2));
    assert_eq!(s.gravity, Gravity::HighjumpFloat);
    assert!(s.highjump(&p, 0, 11_421).is_none());
    assert!(!s.highjump);
}

#[test]
fn gliding_needs_a_free_fall() {
    let mut s = PlayerState::new();
    s.update_grounded(false);
    let mut p = pad();
    p.jump_held = true;
    let r = s.gliding(&p);
    assert_eq!(r.action, Some(MovementAction::Gliding));
    assert_eq!(r.sound, Some(Sound::GlideLoop));
    assert!(r.silence_glide);
    assert!(s.glide);
    let r = s.gliding(&p);
    assert_eq!(r.sound, None);
    assert!(!r.silence_glide);
    p.jump_held = false;
    let r = s.gliding(&p);
    assert_eq!(r.action, None);
    assert!(!s.glide);
    s.jump = true;
    p.jump_held = true;
    assert_eq!(s.gliding(&p).action, None);
}

#[test]
fn damping_kinds() {
    let mut s = grounded();
    assert_eq!(s.damping(), Damping::Ground);
    s.update_grounded(false);
    assert_eq!(s.damping(), Damping::Air);
    assert_eq!(Damping::Air.fixed_thousandths(), Some(927));
    s.highjump = true;
    assert_eq!(s.damping(), Damping::Highjump);
    assert_eq!(Damping::Highjump.fixed_thousandths(), Some(850));
    s.highjump = false;
    s.longjump = true;
    assert_eq!(s.damping(), Damping::Free);
    assert_eq!(Damping::Ground.fixed_thousandths(), None);
}

#[test]
fn gravity_scales() {
    assert_eq!(Gravity::Normal.scale_tenths(), 30);
    assert_eq!(Gravity::Longjump.scale_tenths(), 10);
    assert_eq!(Gravity::Highjump.scale_tenths(), 13);
    assert_eq!(Gravity::HighjumpFloat.scale_tenths(), 15);
}

#[test]
fn animation_choice() {
    let mut current = CurrentAnimation(Animation::Idle);
    let mut s = grounded();
    s.walk = true;
    s.land = true;
    animation_selector(&s, &mut current);
    assert_eq!(current.0, Animation::Walk);
    s.crouch = true;
    animation_selector(&s, &mut current);
    assert_eq!(current.0, Animation::Crouch);
    let mut air = PlayerState::new();
    animation_selector(&air, &mut current);
    assert_eq!(current.0, Animation::Crouch);
    air.jump = true;
    air.sideflip_r = true;
    animation_selector(&air, &mut current);
    assert_eq!(current.0, Animation::SideFlipR);
}

#[test]
fn animation_playback() {
    let land = Animation::Land.playback().unwrap();
    assert_eq!(land.clip, 6);
    assert_eq!(land.finish, Finish::ClearThenPlay(Marker::Land, 4));
    let walk = Animation::Walk.playback().unwrap();
    assert_eq!(walk.clip, 13);
    assert_eq!(walk.speed_percent, 80);
    assert!(walk.repeat);
    let jump = Animation::Jump.playback().unwrap();
    assert_eq!(jump.transition_ms, 80);
    assert_eq!(jump.finish, Finish::Clear(Marker::Jump));
    assert_eq!(Animation::Swing.playback(), None);
    let mut s = PlayerState::new();
    s.land = true;
    s.clear(Marker::Land);
    assert!(!s.land);
}

#[test]
fn aerial_moves_for_the_camera() {
    let mut s = PlayerState::new();
    assert!(!s.in_aerial_move());
    s.longjump = true;
    assert!(s.in_aerial_move());
    s.longjump = false;
    s.highjump = true;
    assert!(!s.in_aerial_move());
}

#[test]
fn shots_are_spaced() {
    assert_eq!(last_shot_time(&vec![]), 0);
    assert_eq!(last_shot_time(&vec![300, 1200, 800]), 1200);
    assert_eq!(last_shot_time(&vec![-50]), 0);
    let mut p = pad();
    p.fire_held = true;
    assert!(shoot(&p, &vec![300, 1200], 1301));
    assert!(!shoot(&p, &vec![300, 1200], 1300));
    assert!(!shoot(&p, &vec![], 100));
    p.fire_held = false;
    assert!(!shoot(&p, &vec![], 5000));
}

#[test]
fn wrench_combo() {
    let mut sw = Swing::new();
    let mut p = pad();
    p.swing_pressed = true;
    assert!(sw.swing(&p, true, 300));
    assert_eq!(sw, Swing { swing_time: 300, swing_number: 1 });
    assert!(!sw.swing(&p, true, 550));
    assert!(sw.swing(&p, true, 551));
    assert!(sw.swing(&p, true, 802));
    assert_eq!(sw.swing_number, 3);
    assert!(!sw.swing(&p, true, 1100));
    assert!(!sw.swing(&p, true, 1303));
    assert_eq!(sw.swing_number, 0);
    assert!(!sw.swing(&p, false, 2000));
}

#[test]
fn reaction_none_is_empty() {
    let r = Reaction::none();
    assert_eq!(r.action, None);
    assert_eq!(r.sound, None);
    assert!(!r.halt && !r.face_forward && !r.silence_glide);
}
