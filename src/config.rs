use vstd::prelude::*;

verus! {

pub const SCREEN_WIDTH: u32 = 1000;
pub const SCREEN_HEIGHT: u32 = 800;
pub const GROUND_HEIGHT: u32 = 100;

/// Scale of the player sprite (16 by 16 source pixels).
pub const PLAYER_SIZE_MUL: u32 = 4;
/// Scale of the obstacle sprite.
pub const PIPE_SIZE_MUL: u32 = 3;
pub const PLAYER_WIDTH: u32 = 16 * PLAYER_SIZE_MUL;
/// The collision box leaves out the bottom rows of the sprite.
pub const PLAYER_HEIGHT: u32 = 16 * PLAYER_SIZE_MUL - 4 * PLAYER_SIZE_MUL;
pub const PLAYER_SPAWN_X: i32 = 200;
pub const PLAYER_SPAWN_Y: i32 = 400;

/// Vertical velocity set by a jump (negative is upwards).
pub const JUMP_HEIGHT: i32 = -10;
/// Added to the vertical velocity on every tick.
pub const GRAVITY: i32 = 1;

pub const PIPE_WIDTH: u32 = 96;
pub const PIPE_HEIGHT: u32 = 700;
/// Height of the passable gap below `hole_y`.
pub const HOLE_HEIGHT: u32 = 200;
pub const HOLE_MIN: i32 = 50;
pub const HOLE_MAX: i32 = 450;
/// Pixels an obstacle moves left on every tick.
pub const SCROLL_SPEED: i32 = 2;
/// An obstacle whose x has come down to this value is recycled.
pub const RECYCLE_X: i32 = -200;
/// Where a recycled obstacle reappears.
pub const RESPAWN_X: i32 = 1000;
pub const PIPE_COUNT: usize = 3;
pub const PIPE_SPACING: i32 = 400;

} // verus!
