//! Units and the game's constants.
//!
//! A position is held in picounits (a world unit, one pixel, is
//! `LENGTH_SCALE` of them), a velocity in microunits per second, an
//! acceleration in world units per second squared, and a time step in
//! microseconds. With these scales `position + velocity * dt` and
//! `velocity + acceleration * dt` are exact integer sums.
use vstd::prelude::*;

verus! {

/// Position integers per world unit.
pub const LENGTH_SCALE: i64 = 1_000_000_000_000;

/// Velocity integers per world unit per second.
pub const SPEED_SCALE: i64 = 1_000_000;

/// Horizontal speed of pipes and ground, in world units per second.
pub const VEL: i64 = -100;

/// Horizontal speed of the background layer (a fifth of the pipes' speed).
pub const VEL_BG: i64 = -20;

/// Vertical speed given to the bird by a flap.
pub const VEL_FLAP: i64 = 256;

/// Vertical acceleration of the bird.
pub const GRAVITY: i64 = -1024;

/// Largest random vertical offset of a pipe pair.
pub const OFFSET: i64 = 100;

/// Height of the gap between the upper and the lower pipe.
pub const GAP: i64 = 100;

/// Horizontal distance between neighbouring pipe pairs.
pub const DISTANCE: i64 = 150;

/// Number of pipe pairs in the pool.
pub const PIPES: usize = 3;

/// Sprite extents, in world units.
pub const W_BG: i64 = 288;
pub const H_BG: i64 = 512;
pub const W_PIPE: i64 = 52;
pub const H_PIPE: i64 = 320;
pub const W_BASE: i64 = 336;
pub const H_BASE: i64 = 112;
pub const W_BIRD: i64 = 34;
pub const H_BIRD: i64 = 24;

/// Highest vertical position of a pipe pair's gap centre, in world units
/// (`OFFSET` above half the ground's height).
pub const PIPE_Y_TOP: i64 = 156;

/// Number of distinct vertical positions a pipe pair's gap centre can take.
pub const PIPE_Y_SPAN: u64 = 200;

} // verus!
