use vstd::prelude::*;

verus! {

/// Micro-pixels per pixel. All positions and sizes are held in micro-pixels,
/// so that advancing a position by `velocity (px/s) * time (us)` is exact
/// integer arithmetic: `px/s * us = micro-pixels`.
pub const PX: i64 = 1_000_000;

/// Upper bound on a playfield dimension, in micro-pixels (about a million
/// pixels). A machine bound: real playfields are orders of magnitude smaller.
pub const MAX_DIM: i64 = 0x100_0000_0000;

/// Ball coordinates saturate at this magnitude, so that integrating a position
/// can never overflow. The bound lies far outside any playfield; within it,
/// integration is plain addition.
pub const COORD_LIMIT: i64 = 0x2000_0000_0000;

/// Bound on rectangle coordinates and sizes under which the overlap test
/// cannot overflow a 64-bit integer.
pub const COORD_SPAN: i64 = 0x4_0000_0000_0000;

/// Bound on the magnitude of any velocity, in pixels per second.
pub const MAX_SPEED: i64 = 0x10_0000;

/// Bound on the duration of a single simulation step, in microseconds
/// (about eight seconds).
pub const MAX_STEP_US: u64 = 0x80_0000;

} // verus!
