//! Core logic of a cube-chase game: a player-driven robot cube is pursued
//! by autonomously steered enemy cubes that damage the player on contact.
//!
//! This crate holds the verified game rules: the shared game record
//! (health, hit cooldown, pause flag), the per-enemy pursuit controller
//! (pause gate, rate gate, contact check, turn decision, steering,
//! change suppression) and the player-side command selection. All timing
//! is explicit: callers pass the current time as milliseconds on a
//! monotone clock with an arbitrary origin. Device I/O — reading cube
//! positions, sending motor, light and sound commands, decoding gamepad
//! input — lives outside this crate; the functions here decide, and the
//! surrounding program performs.

pub mod context;
pub mod enemies;
pub mod player;
