//! A two-paddle ball-bounce game core: entities, menu bookkeeping and the
//! fixed-timestep simulation step (movement, axis-aligned collision response,
//! scoring and pause timing), with verified contracts throughout.
//!
//! All coordinates are integer micro-pixels and all durations integer
//! microseconds, so every position update and collision test is exact.
//! Windowing, rendering, audio playback and input delivery are left to the
//! surrounding host; the core exchanges plain values with it.

pub mod ball;
pub mod config;
pub mod game_state;
pub mod geometry;
pub mod laws;
pub mod menu;
pub mod paddle;
pub mod particle;
pub mod player_control;
pub mod pong;
pub mod random;
