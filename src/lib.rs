//! Gameplay rules of a 3D platformer character, kept apart from the engine.
//!
//! The engine side reads the gamepad, the clock and the physics world, turns
//! what it reads into plain values (milliseconds, stick deflection in
//! ten-thousandths, booleans) and hands them to the functions here. They decide
//! which states the player enters or leaves, which movement actions and sound
//! cues follow, and which animation clip plays. The engine side then applies
//! the velocity changes, rotations and clips that go with those decisions.
//!
//! `v1` holds the first controller, where one routine reads the whole gamepad;
//! `v2` holds the reworked controller, where each move has a routine of its own.

pub mod clock;
pub mod jumps;
pub mod stick;
pub mod v1;
pub mod v2;
