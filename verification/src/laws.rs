//! The general properties of the simulation, stated and proved once for
//! all inputs.

use vstd::prelude::*;
use crate::geometry::{Rect, Vec2, overlaps, resolve_spec, rect_in_range, vec_in_range,
    inter_w, inter_h, bounce_on_y, center_sign_x, center_sign_y, abs_i, sgn};
use crate::entities::{Ball, Block, ball_update_spec, ball_ok};
use crate::game::{Game, pass_spec, keep_alive};
use crate::config::{HIT_SCORE, FULL_SCORE, dim_ok, dt_ok};

verus! {

/// When a vertical bounce pushes the moving rectangle out of `b`, it must
/// not extend past `b` against the push direction (a rectangle that spans
/// beyond the static one is only pushed, not freed).
pub open spec fn clears_on_y(a: Rect, b: Rect) -> bool {
    if center_sign_y(a, b) > 0 {
        a.y <= b.y && a.y + a.h <= b.y + b.h
    } else if center_sign_y(a, b) < 0 {
        a.y >= b.y && a.y + a.h >= b.y + b.h
    } else {
        false
    }
}

/// The horizontal counterpart of [`clears_on_y`].
pub open spec fn clears_on_x(a: Rect, b: Rect) -> bool {
    if center_sign_x(a, b) > 0 {
        a.x <= b.x && a.x + a.w <= b.x + b.w
    } else if center_sign_x(a, b) < 0 {
        a.x >= b.x && a.x + a.w >= b.x + b.w
    } else {
        false
    }
}

/// A resolved collision touches exactly one axis: on the other axis both
/// the position and the velocity are untouched; on the resolved axis the
/// velocity's sign is forced to oppose the center-to-center direction with
/// its magnitude kept, and when the velocity was moving toward the static
/// rectangle, this is exactly a sign flip.
pub proof fn lemma_bounce_single_axis(a: Rect, v: Vec2, b: Rect)
    requires
        overlaps(a, b),
        rect_in_range(a),
        rect_in_range(b),
        vec_in_range(v),
    ensures
        ({
            let r = resolve_spec(a, v, b);
            if bounce_on_y(a, b) {
                &&& r.0.x == a.x && r.1.x == v.x
                &&& (center_sign_y(a, b) != 0 ==> abs_i(r.1.y as int) == abs_i(v.y as int))
                &&& (center_sign_y(a, b) != 0 && v.y != 0 ==> sgn(r.1.y as int)
                    == -center_sign_y(a, b))
                &&& (sgn(v.y as int) == center_sign_y(a, b) && center_sign_y(a, b) != 0
                    ==> r.1.y == -v.y)
            } else {
                &&& r.0.y == a.y && r.1.y == v.y
                &&& (center_sign_x(a, b) != 0 ==> abs_i(r.1.x as int) == abs_i(v.x as int))
                &&& (center_sign_x(a, b) != 0 && v.x != 0 ==> sgn(r.1.x as int)
                    == -center_sign_x(a, b))
                &&& (sgn(v.x as int) == center_sign_x(a, b) && center_sign_x(a, b) != 0
                    ==> r.1.x == -v.x)
            }
        }),
{
}

/// The positional correction removes the overlap on the resolved axis: a
/// re-test right after the bounce finds zero overlap there (and so no
/// collision). This needs the moving rectangle not to span past the static
/// one against the push direction; a rectangle that does is pushed by the
/// overlap extent but stays overlapping.
pub proof fn lemma_bounce_removes_overlap(a: Rect, v: Vec2, b: Rect)
    requires
        overlaps(a, b),
        rect_in_range(a),
        rect_in_range(b),
        vec_in_range(v),
        bounce_on_y(a, b) ==> clears_on_y(a, b),
        !bounce_on_y(a, b) ==> clears_on_x(a, b),
    ensures
        ({
            let r = resolve_spec(a, v, b);
            &&& (bounce_on_y(a, b) ==> inter_h(r.0, b) == 0)
            &&& (!bounce_on_y(a, b) ==> inter_w(r.0, b) == 0)
            &&& !overlaps(r.0, b)
        }),
{
}

/// A bounce never changes the magnitude of either velocity component
/// (whenever the centers differ on the resolved axis): the simulation's
/// integer analog of keeping the velocity's length. Unit length itself is
/// a property of the floating-point normalization at the frame-loop edge.
pub proof fn lemma_bounce_preserves_speed(a: Rect, v: Vec2, b: Rect)
    requires
        overlaps(a, b),
        rect_in_range(a),
        rect_in_range(b),
        vec_in_range(v),
        bounce_on_y(a, b) ==> center_sign_y(a, b) != 0,
        !bounce_on_y(a, b) ==> center_sign_x(a, b) != 0,
    ensures
        ({
            let r = resolve_spec(a, v, b);
            &&& abs_i(r.1.x as int) == abs_i(v.x as int)
            &&& abs_i(r.1.y as int) == abs_i(v.y as int)
        }),
{
}

/// The edge reflections of the ball update keep the magnitude of both
/// velocity components, always: they only force signs.
pub proof fn lemma_reflection_preserves_speed(b: Ball, dt: int, sw: int)
    requires
        ball_ok(b),
        dt_ok(dt),
        dim_ok(sw),
    ensures
        ({
            let b2 = ball_update_spec(b, dt, sw);
            &&& abs_i(b2.vel.x as int) == abs_i(b.vel.x as int)
            &&& abs_i(b2.vel.y as int) == abs_i(b.vel.y as int)
        }),
{
}

/// The collision pass pays exactly `HIT_SCORE` for each collision it
/// resolves, and for nothing else.
pub proof fn lemma_pass_score(shape: Rect, vel: Vec2, blocks: Seq<Block>, score: int)
    ensures
        ({
            let out = pass_spec(shape, vel, blocks, score);
            &&& out.score == score + HIT_SCORE * out.hits
            &&& 0 <= out.hits <= blocks.len()
        }),
    decreases blocks.len(),
{
    if blocks.len() > 0 {
        let b = blocks[0];
        if overlaps(shape, b.rect) {
            let rv = resolve_spec(shape, vel, b.rect);
            lemma_pass_score(rv.0, rv.1, blocks.drop_first(), score + HIT_SCORE);
        } else {
            lemma_pass_score(shape, vel, blocks.drop_first(), score);
        }
    }
}

/// The collision pass never drives a block's remaining hits below zero: a
/// block is hit at most once per frame, and only the pruning that follows
/// removes the blocks that reached zero.
pub proof fn lemma_pass_lives_nonneg(shape: Rect, vel: Vec2, blocks: Seq<Block>, score: int)
    requires
        forall|i: int| 0 <= i < blocks.len() ==> (#[trigger] blocks[i]).lives >= 1,
    ensures
        ({
            let out = pass_spec(shape, vel, blocks, score);
            &&& out.blocks.len() == blocks.len()
            &&& forall|i: int| 0 <= i < out.blocks.len() ==> (#[trigger] out.blocks[i]).lives >= 0
        }),
    decreases blocks.len(),
{
    if blocks.len() > 0 {
        let b = blocks[0];
        if overlaps(shape, b.rect) {
            let rv = resolve_spec(shape, vel, b.rect);
            lemma_pass_lives_nonneg(rv.0, rv.1, blocks.drop_first(), score + HIT_SCORE);
        } else {
            lemma_pass_lives_nonneg(shape, vel, blocks.drop_first(), score);
        }
    }
}

/// A block is in the active set exactly when it still takes a hit: the
/// pruned list holds precisely the blocks with remaining hits, in order.
pub proof fn lemma_active_set_iff(s: Seq<Block>, b: Block)
    ensures
        keep_alive(s).contains(b) <==> (exists|i: int|
            0 <= i < s.len() && s[i] == b && b.lives > 0),
    decreases s.len(),
{
    if s.len() == 0 {
    } else {
        let butlast = s.drop_last();
        lemma_keep_alive_members(s);
        lemma_active_set_iff(butlast, b);
        if keep_alive(s).contains(b) {
            if s.last().lives > 0 && b == s.last() {
                assert(s[s.len() - 1] == b);
            } else {
                if keep_alive(butlast).contains(b) {
                    let i = choose|i: int| 0 <= i < butlast.len() && butlast[i] == b && b.lives
                        > 0;
                    assert(s[i] == b);
                } else {
                    if s.last().lives > 0 {
                        assert(keep_alive(s) == keep_alive(butlast).push(s.last()));
                        let j = choose|j: int|
                            0 <= j < keep_alive(s).len() && keep_alive(s)[j] == b;
                        if j < keep_alive(butlast).len() {
                            assert(keep_alive(butlast)[j] == b);
                        } else {
                            assert(b == s.last());
                        }
                    }
                }
            }
        }
        if exists|i: int| 0 <= i < s.len() && s[i] == b && b.lives > 0 {
            let i = choose|i: int| 0 <= i < s.len() && s[i] == b && b.lives > 0;
            if i < s.len() - 1 {
                assert(butlast[i] == b);
                assert(keep_alive(butlast).contains(b));
                if s.last().lives > 0 {
                    let j = choose|j: int|
                        0 <= j < keep_alive(butlast).len() && keep_alive(butlast)[j] == b;
                    assert(keep_alive(s)[j] == b);
                } else {
                    assert(keep_alive(s) == keep_alive(butlast));
                }
            } else {
                assert(b == s.last() && b.lives > 0);
                assert(keep_alive(s) == keep_alive(butlast).push(s.last()));
                assert(keep_alive(s)[keep_alive(s).len() - 1] == b);
            }
        }
    }
}

/// Every block of the active set still takes a hit.
pub proof fn lemma_keep_alive_members(s: Seq<Block>)
    ensures
        forall|j: int| 0 <= j < keep_alive(s).len() ==> (#[trigger] keep_alive(s)[j]).lives > 0,
    decreases s.len(),
{
    if s.len() > 0 {
        lemma_keep_alive_members(s.drop_last());
        let k = keep_alive(s);
        let kb = keep_alive(s.drop_last());
        if s.last().lives > 0 {
            assert(k == kb.push(s.last()));
            assert forall|j: int| 0 <= j < k.len() implies (#[trigger] k[j]).lives > 0 by {
                if j < k.len() - 1 {
                    assert(k[j] == kb[j]);
                } else {
                    assert(k[j] == s.last());
                }
            }
        }
    }
}

/// Once the grid is cleared the score is exactly the full grid's worth:
/// every session state satisfying the invariant with no block left scores
/// `FULL_SCORE`.
pub proof fn lemma_cleared_grid_score(g: Game)
    requires
        g.wf(),
        g.blocks@.len() == 0,
    ensures
        g.score == FULL_SCORE,
{
}

} // verus!
