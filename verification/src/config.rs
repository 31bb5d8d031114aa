//! Fixed gameplay constants, in milli-units (1000 milli-units = 1 screen
//! unit of the renderer) and milliseconds.

use vstd::prelude::*;

verus! {

/// Paddle width: 150 units.
pub const PLAYER_WIDTH: i64 = 150_000;

/// Paddle height: 40 units.
pub const PLAYER_HEIGHT: i64 = 40_000;

/// Paddle speed: 700 units per second, i.e. 700 milli-units per millisecond.
pub const PLAYER_SPEED: i64 = 700;

/// Width of one grid cell: 100 units.
pub const BLOCK_CELL_W: i64 = 100_000;

/// Height of one grid cell: 40 units.
pub const BLOCK_CELL_H: i64 = 40_000;

/// Gap left around a block inside its grid cell: 15 units.
pub const BLOCK_PADDING: i64 = 15_000;

/// Rendered block width.
pub const BLOCK_W: i64 = 85_000;

/// Rendered block height.
pub const BLOCK_H: i64 = 25_000;

pub const GRID_COLS: i64 = 6;

pub const GRID_ROWS: i64 = 6;

/// Number of blocks in a fresh grid.
pub const GRID_COUNT: i64 = 36;

/// Total width of the block grid.
pub const GRID_TOTAL_W: i64 = 600_000;

/// Vertical offset of the grid's first row: 50 units.
pub const GRID_TOP: i64 = 50_000;

/// Hits a fresh block takes before it breaks.
pub const BLOCK_START_LIVES: i64 = 2;

/// Ball side length: 35 units.
pub const BALL_SIZE: i64 = 35_000;

/// Ball speed: 400 units per second.
pub const BALL_SPEED: i64 = 400;

/// Lives at the start of a session.
pub const START_LIVES: i64 = 3;

/// Score awarded per successful block hit.
pub const HIT_SCORE: i64 = 10;

/// Score after a whole grid has been destroyed: 36 blocks times 2 hits
/// times 10 points.
pub const FULL_SCORE: i64 = 720;

/// Largest playfield dimension the simulation accepts: 10000 units.
pub const MAX_DIM: i64 = 10_000_000;

/// Largest magnitude a velocity component can have. The frame loop hands in
/// unit directions scaled by 1000, far below this.
pub const VEL_LIMIT: i64 = 100_000;

/// Longest frame time accepted, in milliseconds.
pub const DT_LIMIT: i64 = 1000;

/// Farthest a ball can travel in one update: VEL_LIMIT * BALL_SPEED *
/// DT_LIMIT / 1000.
pub const MOVE_LIMIT: i64 = 40_000_000;

/// How far outside the playfield a collision can leave the ball.
pub const POS_SLACK: i64 = 1_000_000;

/// How far outside the playfield the ball can ever get: POS_SLACK +
/// MOVE_LIMIT.
pub const POS_EXCURSION: i64 = 41_000_000;

/// A playfield dimension the simulation accepts.
pub open spec fn dim_ok(d: int) -> bool {
    1 <= d <= MAX_DIM
}

/// A frame time the simulation accepts.
pub open spec fn dt_ok(dt: int) -> bool {
    0 <= dt <= DT_LIMIT
}

} // verus!
