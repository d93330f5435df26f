//! The first controller: one routine reads the whole gamepad each frame, and
//! a few small routines end swings, glides and falls.

pub mod animation;
pub mod camera;
pub mod input;
pub mod movement;
pub mod state;
pub mod world;
