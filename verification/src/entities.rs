//! The three entities of the playfield: paddle, block and ball.

use vstd::prelude::*;
use crate::geometry::{Rect, Vec2, abs64, abs_i, apply_sign, sgn};
use crate::config::{
    PLAYER_WIDTH, PLAYER_HEIGHT, PLAYER_SPEED, BLOCK_CELL_W, BLOCK_CELL_H, BLOCK_PADDING, BLOCK_W, BLOCK_H,
    GRID_COLS, GRID_COUNT, GRID_TOTAL_W, GRID_TOP, BLOCK_START_LIVES, BALL_SIZE, BALL_SPEED,
    VEL_LIMIT, DT_LIMIT, MOVE_LIMIT, POS_SLACK, POS_EXCURSION, MAX_DIM, dim_ok, dt_ok,
};

verus! {

/// The paddle. Its rectangle has fixed size; only the horizontal position
/// ever moves, clamped to the playfield.
#[derive(Clone, Copy, Debug, PartialEq, Eq, Structural)]
pub struct Player {
    pub rect: Rect,
}

/// One block of the grid: a fixed rectangle and the hits it still takes.
#[derive(Clone, Copy, Debug, PartialEq, Eq, Structural)]
pub struct Block {
    pub rect: Rect,
    pub lives: i64,
}

/// The ball: a square rectangle and a velocity direction (a unit direction
/// scaled by 1000, handed in by the frame loop).
#[derive(Clone, Copy, Debug, PartialEq, Eq, Structural)]
pub struct Ball {
    pub shape: Rect,
    pub vel: Vec2,
}

/// A velocity the simulation accepts.
pub open spec fn vel_ok(v: Vec2) -> bool {
    &&& -VEL_LIMIT <= v.x <= VEL_LIMIT
    &&& -VEL_LIMIT <= v.y <= VEL_LIMIT
}

/// A launch direction: bounded, and pointing strictly downward (the loss
/// handler mirrors it to point upward).
pub open spec fn launch_ok(v: Vec2) -> bool {
    &&& -VEL_LIMIT <= v.x <= VEL_LIMIT
    &&& 1 <= v.y <= VEL_LIMIT
}

// ------------------------------------------------------------------ Player

/// The paddle of a fresh session: centered horizontally, 100 units above
/// the bottom of the playfield.
pub open spec fn player_new_spec(sw: int, sh: int) -> Player {
    Player {
        rect: Rect {
            x: (sw / 2 - PLAYER_WIDTH / 2) as i64,
            y: (sh - 100_000) as i64,
            w: PLAYER_WIDTH,
            h: PLAYER_HEIGHT,
        },
    }
}

/// The paddle's shape and position stay within fixed bounds.
pub open spec fn player_ok(p: Player) -> bool {
    &&& p.rect.w == PLAYER_WIDTH
    &&& p.rect.h == PLAYER_HEIGHT
    &&& -PLAYER_WIDTH <= p.rect.x <= MAX_DIM
    &&& -200_000 <= p.rect.y <= MAX_DIM
}

/// -1, 0 or +1: the direction the held keys ask the paddle to move in.
pub open spec fn move_dir(left: bool, right: bool) -> int {
    if left && !right {
        -1
    } else if right && !left {
        1
    } else {
        0
    }
}

/// One paddle update: move by the input direction at fixed speed, then clamp
/// into `[0, sw - width]`. The left clamp is applied first, so a playfield
/// narrower than the paddle pins it to `sw - width`.
pub open spec fn player_update_spec(p: Player, dt: int, left: bool, right: bool, sw: int) -> Player {
    let x1 = p.rect.x + apply_sign(move_dir(left, right), PLAYER_SPEED * dt);
    let x2 = if x1 < 0 {
        0
    } else {
        x1
    };
    let x3 = if x2 > sw - PLAYER_WIDTH {
        sw - PLAYER_WIDTH
    } else {
        x2
    };
    Player { rect: Rect { x: x3 as i64, ..p.rect } }
}

impl Player {
    /// A fresh paddle for a playfield of the given size.
    pub fn new(sw: i64, sh: i64) -> (p: Player)
        requires
            dim_ok(sw as int),
            dim_ok(sh as int),
        ensures
            p == player_new_spec(sw as int, sh as int),
            player_ok(p),
    {
        Player {
            rect: Rect { x: sw / 2 - PLAYER_WIDTH / 2, y: sh - 100_000, w: PLAYER_WIDTH, h: PLAYER_HEIGHT },
        }
    }

    /// Moves the paddle for one frame by the held keys, clamped to the
    /// playfield. Holding both or neither key leaves it in place.
    pub fn update(&mut self, dt_ms: i64, left: bool, right: bool, sw: i64)
        requires
            player_ok(*old(self)),
            dt_ok(dt_ms as int),
            dim_ok(sw as int),
        ensures
            *final(self) == player_update_spec(*old(self), dt_ms as int, left, right, sw as int),
            player_ok(*final(self)),
    {
        let step_len = PLAYER_SPEED * dt_ms;
        let x1 = if left && !right {
            self.rect.x - step_len
        } else if right && !left {
            self.rect.x + step_len
        } else {
            self.rect.x
        };
        let x2 = if x1 < 0 {
            0
        } else {
            x1
        };
        let x3 = if x2 > sw - PLAYER_WIDTH {
            sw - PLAYER_WIDTH
        } else {
            x2
        };
        self.rect.x = x3;
    }
}

// ------------------------------------------------------------------- Block

/// Left edge of the grid: the grid is centered horizontally (rounding toward
/// the center for odd widths).
pub open spec fn grid_left(sw: int) -> int {
    if sw >= GRID_TOTAL_W {
        (sw - GRID_TOTAL_W) / 2
    } else {
        -((GRID_TOTAL_W - sw) / 2)
    }
}

/// Block `i` (row-major) of a fresh grid on a playfield `sw` wide.
pub open spec fn block_at(sw: int, i: int) -> Block {
    Block {
        rect: Rect {
            x: (grid_left(sw) + (i % (GRID_COLS as int)) * BLOCK_CELL_W) as i64,
            y: (GRID_TOP + (i / (GRID_COLS as int)) * BLOCK_CELL_H) as i64,
            w: BLOCK_W,
            h: BLOCK_H,
        },
        lives: BLOCK_START_LIVES,
    }
}

/// A fresh grid of `GRID_COUNT` blocks.
pub open spec fn grid_spec(sw: int) -> Seq<Block> {
    Seq::new(GRID_COUNT as nat, |i: int| block_at(sw, i))
}

/// A block whose rectangle lies in the fixed region blocks can occupy.
pub open spec fn block_rect_ok(r: Rect) -> bool {
    &&& r.w == BLOCK_W
    &&& r.h == BLOCK_H
    &&& -400_000 <= r.x <= MAX_DIM
    &&& 0 <= r.y <= MAX_DIM
}

impl Block {
    /// A fresh block at the given position, two hits from breaking. The
    /// rectangle is one padding gap smaller than its grid cell.
    pub fn new(pos: Vec2) -> (b: Block)
        ensures
            b == (Block {
                rect: Rect { x: pos.x, y: pos.y, w: BLOCK_W, h: BLOCK_H },
                lives: BLOCK_START_LIVES,
            }),
    {
        Block {
            rect: Rect { x: pos.x, y: pos.y, w: BLOCK_CELL_W - BLOCK_PADDING, h: BLOCK_CELL_H - BLOCK_PADDING },
            lives: BLOCK_START_LIVES,
        }
    }

    /// The fresh block grid: `GRID_ROWS` rows of `GRID_COLS` blocks, centered
    /// horizontally, starting `GRID_TOP` below the top edge.
    pub fn init(sw: i64) -> (blocks: Vec<Block>)
        requires
            dim_ok(sw as int),
        ensures
            blocks@ == grid_spec(sw as int),
    {
        let mut blocks: Vec<Block> = Vec::new();
        let left = if sw >= GRID_TOTAL_W {
            (sw - GRID_TOTAL_W) / 2
        } else {
            -((GRID_TOTAL_W - sw) / 2)
        };
        assert(left == grid_left(sw as int));
        let mut i: i64 = 0;
        while i < GRID_COUNT
            invariant
                0 <= i <= GRID_COUNT,
                blocks@.len() == i,
                forall|j: int| 0 <= j < i ==> blocks@[j] == block_at(sw as int, j),
                left == grid_left(sw as int),
                -300_000 <= left <= 5_000_000,
            decreases GRID_COUNT - i,
        {
            let col = i % GRID_COLS;
            let row = i / GRID_COLS;
            let block_x = left + col * BLOCK_CELL_W;
            let block_y = GRID_TOP + row * BLOCK_CELL_H;
            blocks.push(Block::new(Vec2 { x: block_x, y: block_y }));
            i = i + 1;
        }
        assert(blocks@ =~= grid_spec(sw as int));
        blocks
    }
}

// -------------------------------------------------------------------- Ball

/// The ball's fixed shape and bounded velocity.
pub open spec fn ball_core(b: Ball) -> bool {
    &&& b.shape.w == BALL_SIZE
    &&& b.shape.h == BALL_SIZE
    &&& vel_ok(b.vel)
}

/// Where the ball can be at a frame boundary.
pub open spec fn ball_pos_coarse(b: Ball) -> bool {
    &&& -POS_EXCURSION <= b.shape.x <= MAX_DIM + POS_EXCURSION
    &&& -POS_EXCURSION <= b.shape.y <= MAX_DIM + POS_EXCURSION
}

/// Whenever the ball is well outside the playfield, its velocity already
/// points back in: the edge reflections of [`ball_update_spec`] and the
/// loss reset enforce this every frame, and it is what keeps the ball's
/// coordinates bounded over any number of frames.
pub open spec fn ball_settled(b: Ball) -> bool {
    &&& b.shape.x < -POS_SLACK ==> b.vel.x >= 0
    &&& b.shape.x > MAX_DIM + POS_SLACK ==> b.vel.x <= 0
    &&& b.shape.y < -POS_SLACK ==> b.vel.y >= 0
}

/// The ball invariant that holds at every frame boundary.
pub open spec fn ball_ok(b: Ball) -> bool {
    &&& ball_core(b)
    &&& ball_pos_coarse(b)
    &&& ball_settled(b)
}

/// How far the ball moves on one axis in one frame: velocity times speed
/// times elapsed time, descaled (velocity is a unit direction scaled by
/// 1000).
pub open spec fn move_delta_spec(v: int, dt: int) -> int {
    apply_sign(sgn(v), (abs_i(v) * BALL_SPEED * dt) / 1000)
}

/// One ball update: advance along the velocity, then reflect off the left,
/// right and top playfield edges by forcing the velocity sign on the
/// relevant axis (keeping its magnitude). There is no bottom edge: falling
/// past the bottom is handled by the loss check, not here.
pub open spec fn ball_update_spec(b: Ball, dt: int, sw: int) -> Ball {
    let nx = b.shape.x + move_delta_spec(b.vel.x as int, dt);
    let ny = b.shape.y + move_delta_spec(b.vel.y as int, dt);
    let vx1 = if nx < 0 {
        abs_i(b.vel.x as int)
    } else {
        b.vel.x as int
    };
    let vx2 = if nx > sw - BALL_SIZE {
        -abs_i(vx1)
    } else {
        vx1
    };
    let vy1 = if ny < 0 {
        abs_i(b.vel.y as int)
    } else {
        b.vel.y as int
    };
    Ball {
        shape: Rect { x: nx as i64, y: ny as i64, ..b.shape },
        vel: Vec2 { x: vx2 as i64, y: vy1 as i64 },
    }
}

/// The ball after a reset: repositioned to the given point (or the playfield
/// center), with the given velocity direction. The frame loop passes a fresh
/// normalized direction here.
pub open spec fn ball_reset_spec(b: Ball, pos: Option<Vec2>, vel: Vec2, sw: int, sh: int) -> Ball {
    let p = match pos {
        Some(p) => p,
        None => Vec2 { x: (sw / 2) as i64, y: (sh / 2) as i64 },
    };
    Ball { shape: Rect { x: p.x, y: p.y, ..b.shape }, vel }
}

/// The per-frame travel distance is bounded and has the velocity's sign.
pub proof fn lemma_move_delta(v: int, dt: int)
    requires
        -VEL_LIMIT <= v <= VEL_LIMIT,
        0 <= dt <= DT_LIMIT,
    ensures
        -MOVE_LIMIT <= move_delta_spec(v, dt) <= MOVE_LIMIT,
        v >= 0 ==> move_delta_spec(v, dt) >= 0,
        v <= 0 ==> move_delta_spec(v, dt) <= 0,
{
    assert(0 <= abs_i(v) * BALL_SPEED * dt <= 40_000_000_000) by (nonlinear_arith)
        requires
            0 <= abs_i(v) <= 100_000,
            0 <= dt <= 1000,
            BALL_SPEED == 400,
    ;
    assert(0 <= (abs_i(v) * BALL_SPEED * dt) / 1000 <= MOVE_LIMIT);
}

/// One update keeps the ball's shape and velocity bounds, leaves its
/// position within the allowed excursion (apart from below the bottom
/// edge, which the loss check handles), and leaves the velocity pointing
/// back in whenever the position is well outside the playfield.
pub proof fn lemma_update_props(b: Ball, dt: int, sw: int)
    requires
        ball_ok(b),
        dt_ok(dt),
        dim_ok(sw),
    ensures
        ({
            let b2 = ball_update_spec(b, dt, sw);
            &&& ball_core(b2)
            &&& -POS_EXCURSION <= b2.shape.x <= MAX_DIM + POS_EXCURSION
            &&& -POS_EXCURSION <= b2.shape.y <= MAX_DIM + POS_EXCURSION + MOVE_LIMIT
            &&& b2.shape.x < -POS_SLACK ==> b2.vel.x >= 0
            &&& b2.shape.x > MAX_DIM + POS_SLACK ==> b2.vel.x <= 0
            &&& b2.shape.y < -POS_SLACK ==> b2.vel.y >= 0
        }),
{
    lemma_move_delta(b.vel.x as int, dt);
    lemma_move_delta(b.vel.y as int, dt);
}

/// Distance moved on one axis this frame, exactly `move_delta_spec`.
fn move_delta(v: i64, dt_ms: i64) -> (d: i64)
    requires
        -VEL_LIMIT <= v <= VEL_LIMIT,
        dt_ok(dt_ms as int),
    ensures
        d == move_delta_spec(v as int, dt_ms as int),
        -MOVE_LIMIT <= d <= MOVE_LIMIT,
        sgn(d as int) == sgn(v as int) || d == 0,
{
    let m = if v >= 0 {
        v
    } else {
        -v
    };
    assert(0 <= m * BALL_SPEED * dt_ms <= 40_000_000_000 && (m == 0 ==> m * BALL_SPEED * dt_ms
        == 0)) by (nonlinear_arith)
        requires
            0 <= m <= 100_000,
            0 <= dt_ms <= 1000,
            BALL_SPEED == 400,
    ;
    let scaled = m * BALL_SPEED * dt_ms;
    let d0 = scaled / 1000;
    assert(m == abs_i(v as int));
    assert(scaled == abs_i(v as int) * BALL_SPEED * dt_ms);
    assert(d0 == scaled as int / 1000);
    assert(0 <= d0 <= 40_000_000);
    let d = if v >= 0 {
        d0
    } else {
        -d0
    };
    proof {
        let q = (abs_i(v as int) * BALL_SPEED * dt_ms) / 1000;
        assert(q == d0);
        assert(move_delta_spec(v as int, dt_ms as int) == apply_sign(sgn(v as int), q));
        assert(v > 0 ==> d == apply_sign(sgn(v as int), q));
        assert(v < 0 ==> d == apply_sign(sgn(v as int), q));
        assert(v == 0 ==> d == apply_sign(sgn(v as int), q));
    }
    assert(sgn(d as int) == sgn(v as int) || d == 0);
    d
}

impl Ball {
    /// A fresh ball at the given position with the given direction.
    pub fn new(pos: Vec2, vel: Vec2) -> (b: Ball)
        ensures
            b == (Ball { shape: Rect { x: pos.x, y: pos.y, w: BALL_SIZE, h: BALL_SIZE }, vel }),
    {
        Ball { shape: Rect { x: pos.x, y: pos.y, w: BALL_SIZE, h: BALL_SIZE }, vel }
    }

    /// Advances the ball for one frame and reflects it off the side and top
    /// edges.
    pub fn update(&mut self, dt_ms: i64, sw: i64)
        requires
            ball_core(*old(self)),
            ball_pos_coarse(*old(self)),
            dt_ok(dt_ms as int),
            dim_ok(sw as int),
        ensures
            *final(self) == ball_update_spec(*old(self), dt_ms as int, sw as int),
    {
        let dx = move_delta(self.vel.x, dt_ms);
        let dy = move_delta(self.vel.y, dt_ms);
        self.shape.x = self.shape.x + dx;
        self.shape.y = self.shape.y + dy;
        if self.shape.x < 0 {
            self.vel.x = abs64(self.vel.x);
        }
        if self.shape.x > sw - BALL_SIZE {
            let m = abs64(self.vel.x);
            self.vel.x = -m;
        }
        if self.shape.y < 0 {
            self.vel.y = abs64(self.vel.y);
        }
    }

    /// Repositions the ball (to the given point, or the playfield center)
    /// and gives it the given direction. Used at session start and when the
    /// paddle relaunches the ball after a lost life.
    pub fn reset(&mut self, pos: Option<Vec2>, vel: Vec2, sw: i64, sh: i64)
        requires
            0 <= sw,
            0 <= sh,
        ensures
            *final(self) == ball_reset_spec(*old(self), pos, vel, sw as int, sh as int),
    {
        let p = match pos {
            Some(p) => p,
            None => Vec2 { x: sw / 2, y: sh / 2 },
        };
        self.shape.x = p.x;
        self.shape.y = p.y;
        self.vel = vel;
    }
}

} // verus!
