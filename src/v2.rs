//! The reworked controller: each move is decided by a routine of its own. In
//! a frame they run in this order: `update_grounded`, `crouch`, `walk`,
//! `strafe`, `sideflips`, `longjump`, `jump`, `doublejump`, `highjump`,
//! `gliding`; each sees the state that the ones before it left.

pub mod animation;
pub mod input;
pub mod movement;
pub mod state;
pub mod weapons;
