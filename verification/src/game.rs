//! The per-frame game flow: session state, the loss check, the full reset
//! and the frame step that drives one whole session.

use vstd::prelude::*;
use vstd::pervasive::VecAdditionalExecFns;
use crate::geometry::{Rect, Vec2, overlaps, resolve_spec, resolve_collision,
    lemma_resolve_bounds};
use crate::entities::{Player, Block, Ball, player_new_spec, player_update_spec, player_ok,
    ball_update_spec, ball_reset_spec, ball_ok, block_rect_ok, grid_spec, vel_ok, launch_ok,
    lemma_update_props};
use crate::config::{BALL_SIZE, START_LIVES, HIT_SCORE, FULL_SCORE, BLOCK_START_LIVES, MAX_DIM,
    MOVE_LIMIT, POS_SLACK, POS_EXCURSION, dim_ok, dt_ok};

verus! {

/// The four phases of a session: the start menu, live play, a cleared grid
/// and a lost last life.
#[derive(Clone, Copy, Debug, PartialEq, Eq, Structural)]
pub enum GameState {
    Menu,
    Game,
    LevelCompleted,
    Dead,
}

/// Everything the simulation needs from the outside world for one frame:
/// the elapsed time, the playfield size, the polled input, and a fresh
/// launch direction to use if the ball is (re)launched this frame.
#[derive(Clone, Copy, Debug, PartialEq, Eq, Structural)]
pub struct FrameInput {
    pub dt_ms: i64,
    pub sw: i64,
    pub sh: i64,
    pub left_held: bool,
    pub right_held: bool,
    pub fire_pressed: bool,
    pub launch: Vec2,
}

/// A frame input the simulation accepts: a bounded frame time, a bounded
/// playfield and a bounded, downward launch direction.
pub open spec fn input_ok(input: FrameInput) -> bool {
    &&& dt_ok(input.dt_ms as int)
    &&& dim_ok(input.sw as int)
    &&& dim_ok(input.sh as int)
    &&& launch_ok(input.launch)
}

/// The whole session state, owned by the frame loop.
pub struct Game {
    pub score: i64,
    pub lives: i64,
    pub state: GameState,
    pub player: Player,
    pub blocks: Vec<Block>,
    pub ball: Ball,
}

/// The mathematical value of a session state.
#[verifier::ext_equal]
pub struct GameModel {
    pub score: int,
    pub lives: int,
    pub state: GameState,
    pub player: Player,
    pub blocks: Seq<Block>,
    pub ball: Ball,
}

// ----------------------------------------------------------- spec: blocks

/// Total hits the blocks of `s` still take.
pub open spec fn sum_lives(s: Seq<Block>) -> int
    decreases s.len(),
{
    if s.len() == 0 {
        0
    } else {
        s[0].lives + sum_lives(s.drop_first())
    }
}

/// The blocks of `s` that still take hits, in order: the active block set.
pub open spec fn keep_alive(s: Seq<Block>) -> Seq<Block>
    decreases s.len(),
{
    if s.len() == 0 {
        Seq::empty()
    } else {
        let rest = keep_alive(s.drop_last());
        if s.last().lives > 0 {
            rest.push(s.last())
        } else {
            rest
        }
    }
}

/// Every block still takes at least one hit, at most its starting count,
/// and sits in the fixed region blocks can occupy.
pub open spec fn blocks_ok(s: Seq<Block>) -> bool {
    forall|i: int|
        0 <= i < s.len() ==> {
            &&& 1 <= (#[trigger] s[i]).lives <= BLOCK_START_LIVES
            &&& block_rect_ok(s[i].rect)
        }
}

pub proof fn lemma_sum_push(s: Seq<Block>, b: Block)
    ensures
        sum_lives(s.push(b)) == sum_lives(s) + b.lives,
    decreases s.len(),
{
    assert(s.push(b).len() == s.len() + 1);
    assert(sum_lives(s.push(b)) == s.push(b)[0].lives + sum_lives(s.push(b).drop_first()));
    if s.len() == 0 {
        assert(s.push(b)[0] == b);
        assert(s.push(b).drop_first() =~= Seq::<Block>::empty());
        assert(sum_lives(Seq::<Block>::empty()) == 0);
    } else {
        assert(s.push(b)[0] == s[0]);
        assert(s.push(b).drop_first() =~= s.drop_first().push(b));
        lemma_sum_push(s.drop_first(), b);
    }
}

pub proof fn lemma_sum_nonneg(s: Seq<Block>)
    requires
        forall|i: int| 0 <= i < s.len() ==> (#[trigger] s[i]).lives >= 0,
    ensures
        sum_lives(s) >= 0,
    decreases s.len(),
{
    if s.len() > 0 {
        lemma_sum_nonneg(s.drop_first());
    }
}

pub proof fn lemma_sum_skip_unfold(s: Seq<Block>, i: int)
    requires
        0 <= i < s.len(),
    ensures
        sum_lives(s.skip(i)) == s[i].lives + sum_lives(s.skip(i + 1)),
{
    assert(s.skip(i).drop_first() =~= s.skip(i + 1));
    assert(s.skip(i)[0] == s[i]);
}

/// A fresh grid's blocks take `BLOCK_START_LIVES` hits each.
pub proof fn lemma_sum_fresh(s: Seq<Block>)
    requires
        forall|i: int| 0 <= i < s.len() ==> (#[trigger] s[i]).lives == BLOCK_START_LIVES,
    ensures
        sum_lives(s) == BLOCK_START_LIVES * s.len(),
    decreases s.len(),
{
    if s.len() > 0 {
        lemma_sum_fresh(s.drop_first());
    }
}

// ------------------------------------------------------- spec: block pass

/// What one ball-versus-blocks pass produces: the ball's rectangle and
/// velocity, the blocks with their remaining hits, the score, and how many
/// collisions were resolved.
#[verifier::ext_equal]
pub struct PassOut {
    pub shape: Rect,
    pub vel: Vec2,
    pub blocks: Seq<Block>,
    pub score: int,
    pub hits: int,
}

/// The collision pass over the block list, front to back: each block that
/// the ball overlaps resolves one bounce, loses one hit and scores
/// `HIT_SCORE`; the ball's state carries on into the next test.
pub open spec fn pass_spec(shape: Rect, vel: Vec2, blocks: Seq<Block>, score: int) -> PassOut
    decreases blocks.len(),
{
    if blocks.len() == 0 {
        PassOut { shape, vel, blocks: Seq::empty(), score, hits: 0 }
    } else {
        let b = blocks[0];
        if overlaps(shape, b.rect) {
            let rv = resolve_spec(shape, vel, b.rect);
            let b2 = Block { lives: (b.lives - 1) as i64, ..b };
            let rest = pass_spec(rv.0, rv.1, blocks.drop_first(), score + HIT_SCORE);
            PassOut {
                shape: rest.shape,
                vel: rest.vel,
                blocks: seq![b2] + rest.blocks,
                score: rest.score,
                hits: rest.hits + 1,
            }
        } else {
            let rest = pass_spec(shape, vel, blocks.drop_first(), score);
            PassOut {
                shape: rest.shape,
                vel: rest.vel,
                blocks: seq![b] + rest.blocks,
                score: rest.score,
                hits: rest.hits,
            }
        }
    }
}

/// `out` with a prefix of already-processed blocks put back in front and
/// the collisions already resolved counted in.
pub open spec fn pass_glue(prefix: Seq<Block>, done: int, out: PassOut) -> PassOut {
    PassOut { blocks: prefix + out.blocks, hits: out.hits + done, ..out }
}

// -------------------------------------------------------- spec: the frame

/// The loss check: nothing happens while the ball is above the bottom edge.
/// Otherwise one life goes, the ball is relaunched from just above the
/// paddle's center with the launch direction mirrored upward, and play ends
/// when no life is left.
pub open spec fn lose_spec(
    ball: Ball,
    lives: int,
    player_shape: Rect,
    state: GameState,
    sh: int,
    launch: Vec2,
) -> (Ball, int, GameState) {
    if ball.shape.y < sh {
        (ball, lives, state)
    } else {
        let lives2 = lives - 1;
        let pos = Vec2 {
            x: (player_shape.x + player_shape.w / 2) as i64,
            y: (player_shape.y - player_shape.h / 2) as i64,
        };
        let vel = Vec2 { x: launch.x, y: (-launch.y) as i64 };
        let ball2 = ball_reset_spec(ball, Some(pos), vel, 0, 0);
        (ball2, lives2, if lives2 <= 0 { GameState::Dead } else { state })
    }
}

/// A full session reset: fresh paddle, zero score, full lives, the ball at
/// the playfield center with the fresh launch direction, and a new grid.
pub open spec fn restart_model(m: GameModel, sw: int, sh: int, launch: Vec2) -> GameModel {
    GameModel {
        score: 0,
        lives: START_LIVES as int,
        state: m.state,
        player: player_new_spec(sw, sh),
        blocks: grid_spec(sw),
        ball: ball_reset_spec(m.ball, None, launch, sw, sh),
    }
}

/// One frame of live play, in the fixed order: ball update, paddle update,
/// loss check, ball-versus-paddle bounce, the block pass, pruning spent
/// blocks, and the win check.
pub open spec fn playing_step(m: GameModel, input: FrameInput) -> GameModel {
    let dt = input.dt_ms as int;
    let sw = input.sw as int;
    let sh = input.sh as int;
    let ball1 = ball_update_spec(m.ball, dt, sw);
    let player1 = player_update_spec(m.player, dt, input.left_held, input.right_held, sw);
    let lost = lose_spec(ball1, m.lives, player1.rect, m.state, sh, input.launch);
    let ball2 = lost.0;
    let paddled = if overlaps(ball2.shape, player1.rect) {
        resolve_spec(ball2.shape, ball2.vel, player1.rect)
    } else {
        (ball2.shape, ball2.vel)
    };
    let pass = pass_spec(paddled.0, paddled.1, m.blocks, m.score);
    let blocks2 = keep_alive(pass.blocks);
    let state2 = if blocks2.len() == 0 {
        GameState::LevelCompleted
    } else {
        lost.2
    };
    GameModel {
        score: pass.score,
        lives: lost.1,
        state: state2,
        player: player1,
        blocks: blocks2,
        ball: Ball { shape: pass.shape, vel: pass.vel },
    }
}

/// One frame of the whole state machine. The menu waits for the start
/// signal; play runs [`playing_step`]; a won or lost session waits for the
/// restart signal, which performs the full reset and returns to play.
pub open spec fn step_spec(m: GameModel, input: FrameInput) -> GameModel {
    match m.state {
        GameState::Menu => if input.fire_pressed {
            GameModel { state: GameState::Game, ..m }
        } else {
            m
        },
        GameState::Game => playing_step(m, input),
        GameState::LevelCompleted => if input.fire_pressed {
            GameModel { state: GameState::Game, ..restart_model(m, input.sw as int, input.sh as int, input.launch) }
        } else {
            m
        },
        GameState::Dead => if input.fire_pressed {
            GameModel { state: GameState::Game, ..restart_model(m, input.sw as int, input.sh as int, input.launch) }
        } else {
            m
        },
    }
}

/// The session state a fresh process starts in.
pub open spec fn init_model(sw: int, sh: int, launch: Vec2) -> GameModel {
    GameModel {
        score: 0,
        lives: START_LIVES as int,
        state: GameState::Menu,
        player: player_new_spec(sw, sh),
        blocks: grid_spec(sw),
        ball: Ball {
            shape: Rect { x: (sw / 2) as i64, y: (sh / 2) as i64, w: BALL_SIZE, h: BALL_SIZE },
            vel: launch,
        },
    }
}

// ------------------------------------------------------------------- exec

/// Checks whether the ball has fallen past the bottom of the playfield; if
/// so, takes a life, relaunches the ball upward from just above the paddle,
/// and moves to `Dead` once no life is left. Runs before collision
/// resolution each frame.
pub fn lose_statement(
    ball: &mut Ball,
    lives: &mut i64,
    player_shape: Rect,
    state: &mut GameState,
    sh: i64,
    launch: Vec2,
)
    requires
        0 <= *old(lives) <= START_LIVES,
        player_ok(Player { rect: player_shape }),
        launch_ok(launch),
        0 <= sh,
    ensures
        ({
            let lost = lose_spec(*old(ball), *old(lives) as int, player_shape, *old(state),
                sh as int, launch);
            &&& *final(ball) == lost.0
            &&& *final(lives) == lost.1
            &&& *final(state) == lost.2
        }),
{
    if ball.shape.y < sh {
        return ;
    }
    *lives = *lives - 1;
    ball.reset(
        Some(Vec2 { x: player_shape.x + player_shape.w / 2, y: player_shape.y - player_shape.h / 2 }),
        Vec2 { x: launch.x, y: -launch.y },
        0,
        0,
    );
    if *lives <= 0 {
        *state = GameState::Dead;
    }
}

/// The full session reset performed when a finished session is restarted.
pub fn reset(
    lives: &mut i64,
    score: &mut i64,
    ball: &mut Ball,
    player: &mut Player,
    blocks: &mut Vec<Block>,
    sw: i64,
    sh: i64,
    launch: Vec2,
)
    requires
        dim_ok(sw as int),
        dim_ok(sh as int),
        launch_ok(launch),
    ensures
        *final(lives) == START_LIVES,
        *final(score) == 0,
        *final(player) == player_new_spec(sw as int, sh as int),
        final(blocks)@ == grid_spec(sw as int),
        *final(ball) == ball_reset_spec(*old(ball), None, launch, sw as int, sh as int),
{
    *player = Player::new(sw, sh);
    *score = 0;
    *lives = START_LIVES;
    ball.reset(None, launch, sw, sh);
    *blocks = Block::init(sw);
}

impl Game {
    /// The mathematical value of this session state.
    pub open spec fn model(self) -> GameModel {
        GameModel {
            score: self.score as int,
            lives: self.lives as int,
            state: self.state,
            player: self.player,
            blocks: self.blocks@,
            ball: self.ball,
        }
    }

    /// The session invariant, re-established by every frame: lives stay in
    /// `[0, START_LIVES]` (and at least one remains during live play), the
    /// score accounts exactly for the hits the remaining blocks no longer
    /// take, every block in the active set still takes a hit, and paddle
    /// and ball sit within their fixed bounds.
    pub open spec fn wf(self) -> bool {
        &&& 0 <= self.lives <= START_LIVES
        &&& (self.state == GameState::Game ==> self.lives >= 1)
        &&& (self.state == GameState::Menu ==> self.lives == START_LIVES)
        &&& 0 <= self.score
        &&& self.score + HIT_SCORE * sum_lives(self.blocks@) == FULL_SCORE
        &&& blocks_ok(self.blocks@)
        &&& player_ok(self.player)
        &&& ball_ok(self.ball)
    }

    /// A fresh session: menu phase, full lives, zero score, a fresh grid,
    /// the ball at the playfield center moving along `launch`.
    pub fn new(sw: i64, sh: i64, launch: Vec2) -> (g: Game)
        requires
            dim_ok(sw as int),
            dim_ok(sh as int),
            launch_ok(launch),
        ensures
            g.model() == init_model(sw as int, sh as int, launch),
            g.wf(),
    {
        let g = Game {
            score: 0,
            lives: START_LIVES,
            state: GameState::Menu,
            player: Player::new(sw, sh),
            blocks: Block::init(sw),
            ball: Ball::new(Vec2 { x: sw / 2, y: sh / 2 }, launch),
        };
        proof {
            lemma_sum_fresh(g.blocks@);
            assert(g.model() =~= init_model(sw as int, sh as int, launch));
        }
        g
    }

    /// One frame of live play, exactly [`playing_step`].
    fn playing_frame(&mut self, input: FrameInput)
        requires
            old(self).wf(),
            old(self).state == GameState::Game,
            input_ok(input),
        ensures
            final(self).model() == playing_step(old(self).model(), input),
            final(self).wf(),
    {
        let ghost m0 = old(self).model();
        let dt = input.dt_ms;
        let sw = input.sw;
        let sh = input.sh;

        self.ball.update(dt, sw);
        proof {
            lemma_update_props(m0.ball, dt as int, sw as int);
        }
        let ghost ball1 = self.ball;

        self.player.update(dt, input.left_held, input.right_held, sw);
        let ghost player1 = self.player;

        lose_statement(&mut self.ball, &mut self.lives, self.player.rect, &mut self.state, sh,
            input.launch);
        let ghost ball2 = self.ball;
        let ghost lives1 = self.lives;
        let ghost state1 = self.state;
        proof {
            assert(ball2.shape.w == BALL_SIZE && ball2.shape.h == BALL_SIZE);
            assert(vel_ok(ball2.vel));
            assert(-POS_EXCURSION <= ball2.shape.x <= MAX_DIM + POS_EXCURSION);
            assert(-POS_EXCURSION <= ball2.shape.y && ball2.shape.y < MAX_DIM + POS_EXCURSION
                + MOVE_LIMIT);
            assert(ball2.shape.y <= MAX_DIM || ball2 == ball1);
        }

        let prect = self.player.rect;
        let _ = resolve_collision(&mut self.ball.shape, &mut self.ball.vel, &prect);
        proof {
            if overlaps(ball2.shape, prect) {
                lemma_resolve_bounds(ball2.shape, ball2.vel, prect);
            }
        }

        // The collision pass over the blocks.
        let ghost s0 = self.ball.shape;
        let ghost v0 = self.ball.vel;
        let ghost bseq = self.blocks@;
        let ghost sc0 = self.score as int;
        let ghost full = pass_spec(s0, v0, bseq, sc0);
        let ghost mut hits_done: int = 0;
        let n = self.blocks.len();
        let mut i: usize = 0;
        proof {
            assert(bseq.skip(0) =~= bseq);
            assert(bseq.take(0) =~= Seq::<Block>::empty());
            assert(full == pass_glue(self.blocks@.take(0), 0, pass_spec(self.ball.shape,
                self.ball.vel, bseq.skip(0), self.score as int)));
        }
        while i < n
            invariant
                0 <= i <= n,
                self.blocks.len() == n,
                bseq.len() == n,
                forall|j: int| i <= j < n ==> self.blocks@[j] == bseq[j],
                forall|j: int|
                    0 <= j < i ==> {
                        &&& 0 <= (#[trigger] self.blocks@[j]).lives <= BLOCK_START_LIVES
                        &&& block_rect_ok(self.blocks@[j].rect)
                    },
                blocks_ok(bseq),
                full == pass_glue(self.blocks@.take(i as int), hits_done, pass_spec(
                    self.ball.shape, self.ball.vel, bseq.skip(i as int), self.score as int)),
                self.ball.shape.w == BALL_SIZE,
                self.ball.shape.h == BALL_SIZE,
                vel_ok(self.ball.vel),
                -POS_EXCURSION <= self.ball.shape.x <= MAX_DIM + POS_EXCURSION,
                -POS_EXCURSION <= self.ball.shape.y <= MAX_DIM + POS_SLACK,
                self.ball.shape.x < -POS_SLACK ==> self.ball.vel.x >= 0,
                self.ball.shape.x > MAX_DIM + POS_SLACK ==> self.ball.vel.x <= 0,
                self.ball.shape.y < -POS_SLACK ==> self.ball.vel.y >= 0,
                0 <= self.score,
                self.score as int == sc0 + HIT_SCORE * hits_done,
                self.score + HIT_SCORE * (sum_lives(self.blocks@.take(i as int)) + sum_lives(
                    bseq.skip(i as int))) == FULL_SCORE,
                self.player == player1,
                self.lives == lives1,
                self.state == state1,
            decreases n - i,
        {
            let ghost iint = i as int;
            let ghost cur_s = self.ball.shape;
            let ghost cur_v = self.ball.vel;
            let ghost cur_sc = self.score as int;
            let ghost pre_blocks = self.blocks@;
            proof {
                assert(bseq.skip(iint)[0] == bseq[iint]);
                assert(bseq.skip(iint).drop_first() =~= bseq.skip(iint + 1));
                lemma_sum_skip_unfold(bseq, iint);
                assert(forall|j: int|
                    0 <= j < bseq.skip(iint + 1).len() ==> (#[trigger] bseq.skip(iint + 1)[j])
                        == bseq[iint + 1 + j]);
                lemma_sum_nonneg(bseq.skip(iint + 1));
                lemma_sum_nonneg(self.blocks@.take(iint));
            }
            let brect = self.blocks[i].rect;
            let hit = resolve_collision(&mut self.ball.shape, &mut self.ball.vel, &brect);
            if hit {
                proof {
                    lemma_resolve_bounds(cur_s, cur_v, brect);
                }
                let mut blk = self.blocks[i];
                blk.lives = blk.lives - 1;
                self.blocks.set(i, blk);
                self.score = self.score + HIT_SCORE;
                proof {
                    hits_done = hits_done + 1;
                }
            }
            proof {
                let b = bseq[iint];
                assert(self.blocks@.take(iint) =~= pre_blocks.take(iint));
                assert(self.blocks@.take(iint + 1) =~= self.blocks@.take(iint).push(
                    self.blocks@[iint]));
                lemma_sum_push(self.blocks@.take(iint), self.blocks@[iint]);
                let out_i = pass_spec(cur_s, cur_v, bseq.skip(iint), cur_sc);
                if hit {
                    let rv = resolve_spec(cur_s, cur_v, b.rect);
                    let b2 = Block { lives: (b.lives - 1) as i64, ..b };
                    assert(self.blocks@[iint] == b2);
                    let rest = pass_spec(rv.0, rv.1, bseq.skip(iint + 1), cur_sc + HIT_SCORE);
                    assert(out_i =~= PassOut {
                        shape: rest.shape,
                        vel: rest.vel,
                        blocks: seq![b2] + rest.blocks,
                        score: rest.score,
                        hits: rest.hits + 1,
                    });
                    assert(self.blocks@.take(iint) + (seq![b2] + rest.blocks)
                        =~= self.blocks@.take(iint + 1) + rest.blocks);
                    assert(pass_glue(pre_blocks.take(iint), hits_done - 1, out_i) =~= pass_glue(
                        self.blocks@.take(iint + 1), hits_done, rest));
                } else {
                    let rest = pass_spec(cur_s, cur_v, bseq.skip(iint + 1), cur_sc);
                    assert(out_i =~= PassOut {
                        shape: rest.shape,
                        vel: rest.vel,
                        blocks: seq![b] + rest.blocks,
                        score: rest.score,
                        hits: rest.hits,
                    });
                    assert(self.blocks@.take(iint) + (seq![b] + rest.blocks)
                        =~= self.blocks@.take(iint + 1) + rest.blocks);
                    assert(pass_glue(pre_blocks.take(iint), hits_done, out_i) =~= pass_glue(
                        self.blocks@.take(iint + 1), hits_done, rest));
                }
            }
            i = i + 1;
        }
        proof {
            assert(bseq.skip(n as int) =~= Seq::<Block>::empty());
            assert(self.blocks@.take(n as int) =~= self.blocks@);
            assert(full.blocks =~= self.blocks@);
            assert(full.shape == self.ball.shape);
            assert(full.vel == self.ball.vel);
            assert(full.score == self.score as int);
        }
        let ghost ball3 = self.ball;
        let ghost score3 = self.score;
        let ghost pruned_in = self.blocks@;

        // Prune the blocks that no longer take a hit.
        let n2 = self.blocks.len();
        let mut kept: Vec<Block> = Vec::new();
        let mut i2: usize = 0;
        proof {
            assert(pruned_in.take(0) =~= Seq::<Block>::empty());
            assert(kept@ =~= keep_alive(pruned_in.take(0)));
        }
        while i2 < n2
            invariant
                0 <= i2 <= n2,
                self.blocks.len() == n2,
                self.blocks@ == pruned_in,
                forall|j: int|
                    0 <= j < n2 ==> {
                        &&& 0 <= (#[trigger] pruned_in[j]).lives <= BLOCK_START_LIVES
                        &&& block_rect_ok(pruned_in[j].rect)
                    },
                kept@ == keep_alive(pruned_in.take(i2 as int)),
                sum_lives(kept@) == sum_lives(pruned_in.take(i2 as int)),
                blocks_ok(kept@),
            decreases n2 - i2,
        {
            let ghost i2int = i2 as int;
            let ghost kept_pre = kept@;
            proof {
                assert(pruned_in.take(i2int + 1).drop_last() =~= pruned_in.take(i2int));
                assert(pruned_in.take(i2int + 1).last() == pruned_in[i2int]);
                assert(pruned_in.take(i2int + 1) =~= pruned_in.take(i2int).push(
                    pruned_in[i2int]));
                lemma_sum_push(pruned_in.take(i2int), pruned_in[i2int]);
            }
            let b = self.blocks[i2];
            if b.lives > 0 {
                kept.push(b);
                proof {
                    lemma_sum_push(kept_pre, b);
                }
            }
            i2 = i2 + 1;
        }
        proof {
            assert(pruned_in.take(n2 as int) =~= pruned_in);
        }
        self.blocks = kept;

        if self.blocks.len() == 0 {
            self.state = GameState::LevelCompleted;
        }
        proof {
            assert(self.model() =~= playing_step(m0, input));
        }
    }

    /// One frame of the whole state machine, exactly [`step_spec`]: the
    /// menu waits for the start signal, live play runs the frame rule, and
    /// a finished session restarts on the restart signal.
    pub fn step(&mut self, input: FrameInput)
        requires
            old(self).wf(),
            input_ok(input),
        ensures
            final(self).model() == step_spec(old(self).model(), input),
            final(self).wf(),
    {
        let ghost m0 = old(self).model();
        match self.state {
            GameState::Menu => {
                if input.fire_pressed {
                    self.state = GameState::Game;
                }
                proof {
                    assert(self.model() =~= step_spec(m0, input));
                }
            },
            GameState::Game => {
                self.playing_frame(input);
            },
            GameState::LevelCompleted => {
                if input.fire_pressed {
                    reset(&mut self.lives, &mut self.score, &mut self.ball, &mut self.player,
                        &mut self.blocks, input.sw, input.sh, input.launch);
                    self.state = GameState::Game;
                    proof {
                        lemma_sum_fresh(self.blocks@);
                    }
                }
                proof {
                    assert(self.model() =~= step_spec(m0, input));
                }
            },
            GameState::Dead => {
                if input.fire_pressed {
                    reset(&mut self.lives, &mut self.score, &mut self.ball, &mut self.player,
                        &mut self.blocks, input.sw, input.sh, input.launch);
                    self.state = GameState::Game;
                    proof {
                        lemma_sum_fresh(self.blocks@);
                    }
                }
                proof {
                    assert(self.model() =~= step_spec(m0, input));
                }
            },
        }
    }
}

} // verus!
