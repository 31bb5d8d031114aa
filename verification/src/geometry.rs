//! Axis-aligned rectangles and single-step collision resolution.
//!
//! Coordinates are fixed-point milli-units held in `i64`. The collision
//! resolver applies the simplified single-axis bounce policy: it corrects the
//! moving rectangle's position on one axis only and forces the sign of the
//! velocity on that axis, preserving its magnitude.

use vstd::prelude::*;

verus! {

/// Every coordinate handled by the geometry routines stays within this bound,
/// so that the intermediate arithmetic fits comfortably in `i64`.
pub const COORD_LIMIT: i64 = 100_000_000;

/// A 2D vector in milli-units.
#[derive(Clone, Copy, Debug, PartialEq, Eq, Structural)]
pub struct Vec2 {
    pub x: i64,
    pub y: i64,
}

/// An axis-aligned rectangle: top-left corner, width and height, milli-units.
#[derive(Clone, Copy, Debug, PartialEq, Eq, Structural)]
pub struct Rect {
    pub x: i64,
    pub y: i64,
    pub w: i64,
    pub h: i64,
}

/// The sign of an integer: -1, 0 or +1.
pub open spec fn sgn(v: int) -> int {
    if v > 0 {
        1
    } else if v < 0 {
        -1
    } else {
        0
    }
}

/// `v` with the sign `s` in {-1, 0, 1} applied to it.
pub open spec fn apply_sign(s: int, v: int) -> int {
    if s > 0 {
        v
    } else if s < 0 {
        -v
    } else {
        0
    }
}

pub open spec fn abs_i(v: int) -> int {
    if v >= 0 {
        v
    } else {
        -v
    }
}

pub open spec fn min_i(a: int, b: int) -> int {
    if a <= b {
        a
    } else {
        b
    }
}

pub open spec fn max_i(a: int, b: int) -> int {
    if a >= b {
        a
    } else {
        b
    }
}

/// A rectangle whose coordinates are small enough for the collision
/// arithmetic.
pub open spec fn rect_in_range(r: Rect) -> bool {
    &&& -COORD_LIMIT <= r.x <= COORD_LIMIT
    &&& -COORD_LIMIT <= r.y <= COORD_LIMIT
    &&& 0 <= r.w <= COORD_LIMIT
    &&& 0 <= r.h <= COORD_LIMIT
}

pub open spec fn vec_in_range(v: Vec2) -> bool {
    &&& -COORD_LIMIT <= v.x <= COORD_LIMIT
    &&& -COORD_LIMIT <= v.y <= COORD_LIMIT
}

/// Width of the overlap of `a` and `b` (positive exactly when they overlap
/// on the x axis).
pub open spec fn inter_w(a: Rect, b: Rect) -> int {
    min_i(a.x + a.w, b.x + b.w) - max_i(a.x as int, b.x as int)
}

/// Height of the overlap of `a` and `b`.
pub open spec fn inter_h(a: Rect, b: Rect) -> int {
    min_i(a.y + a.h, b.y + b.h) - max_i(a.y as int, b.y as int)
}

/// Two rectangles overlap when their intersection has positive area; mere
/// edge contact does not count, which avoids spurious repeated bounces.
pub open spec fn overlaps(a: Rect, b: Rect) -> bool {
    inter_w(a, b) > 0 && inter_h(a, b) > 0
}

/// The overlapping rectangle of two overlapping rectangles.
pub open spec fn inter_rect(a: Rect, b: Rect) -> Rect {
    Rect {
        x: max_i(a.x as int, b.x as int) as i64,
        y: max_i(a.y as int, b.y as int) as i64,
        w: inter_w(a, b) as i64,
        h: inter_h(a, b) as i64,
    }
}

/// Sign of the x distance from `a`'s center to `b`'s center (doubled
/// coordinates, so no halving is needed).
pub open spec fn center_sign_x(a: Rect, b: Rect) -> int {
    sgn((2 * b.x + b.w) - (2 * a.x + a.w))
}

/// Sign of the y distance from `a`'s center to `b`'s center.
pub open spec fn center_sign_y(a: Rect, b: Rect) -> int {
    sgn((2 * b.y + b.h) - (2 * a.y + a.h))
}

/// Whether an overlap of `a` and `b` is resolved on the y axis: the bounce is
/// vertical when the intersection is wider than tall, horizontal otherwise
/// (equality resolves as horizontal).
pub open spec fn bounce_on_y(a: Rect, b: Rect) -> bool {
    inter_w(a, b) > inter_h(a, b)
}

/// The moving rectangle and velocity after resolving an overlap of `a`
/// (moving, with velocity `v`) against `b` (static): on the chosen axis the
/// position is pushed back by the overlap extent, against the direction from
/// `a`'s center to `b`'s center, and the velocity's sign on that axis is
/// forced to oppose that direction, its magnitude kept.
pub open spec fn resolve_spec(a: Rect, v: Vec2, b: Rect) -> (Rect, Vec2) {
    if bounce_on_y(a, b) {
        let s = center_sign_y(a, b);
        (
            Rect { y: (a.y - apply_sign(s, inter_h(a, b))) as i64, ..a },
            Vec2 { x: v.x, y: apply_sign(-s, abs_i(v.y as int)) as i64 },
        )
    } else {
        let s = center_sign_x(a, b);
        (
            Rect { x: (a.x - apply_sign(s, inter_w(a, b))) as i64, ..a },
            Vec2 { x: apply_sign(-s, abs_i(v.x as int)) as i64, y: v.y },
        )
    }
}

/// A resolved bounce leaves the moving rectangle close to the static one:
/// within one moving-rectangle extent of it on each axis. Its size is kept,
/// and neither velocity component grows in magnitude.
pub proof fn lemma_resolve_bounds(a: Rect, v: Vec2, b: Rect)
    requires
        overlaps(a, b),
        rect_in_range(a),
        rect_in_range(b),
        vec_in_range(v),
    ensures
        ({
            let r = resolve_spec(a, v, b);
            &&& r.0.w == a.w && r.0.h == a.h
            &&& b.x - 2 * a.w <= r.0.x <= b.x + b.w + a.w
            &&& b.y - 2 * a.h <= r.0.y <= b.y + b.h + a.h
            &&& abs_i(r.1.x as int) <= abs_i(v.x as int)
            &&& abs_i(r.1.y as int) <= abs_i(v.y as int)
        }),
{
}

/// Absolute value of a bounded `i64`.
pub fn abs64(v: i64) -> (r: i64)
    requires
        -COORD_LIMIT <= v <= COORD_LIMIT,
    ensures
        r == abs_i(v as int),
{
    if v >= 0 {
        v
    } else {
        -v
    }
}

/// The strictly overlapping rectangle of `a` and `b`, or `None` when the two
/// do not overlap with positive area.
pub fn intersect(a: &Rect, b: &Rect) -> (r: Option<Rect>)
    requires
        rect_in_range(*a),
        rect_in_range(*b),
    ensures
        overlaps(*a, *b) ==> r == Some(inter_rect(*a, *b)),
        !overlaps(*a, *b) ==> r is None,
{
    let left = if a.x >= b.x {
        a.x
    } else {
        b.x
    };
    let top = if a.y >= b.y {
        a.y
    } else {
        b.y
    };
    let ar = a.x + a.w;
    let br = b.x + b.w;
    let right = if ar <= br {
        ar
    } else {
        br
    };
    let ab = a.y + a.h;
    let bb = b.y + b.h;
    let bottom = if ab <= bb {
        ab
    } else {
        bb
    };
    if right > left && bottom > top {
        Some(Rect { x: left, y: top, w: right - left, h: bottom - top })
    } else {
        None
    }
}

/// Resolves one step of a collision of the moving rectangle `a` (velocity
/// `vel`) against the static rectangle `b`.
///
/// Returns `false` and changes nothing when the two rectangles do not
/// strictly overlap. Otherwise it applies the single-axis bounce of
/// [`resolve_spec`] in place and returns `true`.
pub fn resolve_collision(a: &mut Rect, vel: &mut Vec2, b: &Rect) -> (hit: bool)
    requires
        rect_in_range(*old(a)),
        rect_in_range(*b),
        vec_in_range(*old(vel)),
    ensures
        hit == overlaps(*old(a), *b),
        !hit ==> *final(a) == *old(a) && *final(vel) == *old(vel),
        hit ==> (*final(a), *final(vel)) == resolve_spec(*old(a), *old(vel), *b),
{
    let inter = match intersect(a, b) {
        Some(i) => i,
        None => {
            return false;
        },
    };
    let to_x = (2 * b.x + b.w) - (2 * a.x + a.w);
    let to_y = (2 * b.y + b.h) - (2 * a.y + a.h);
    if inter.w > inter.h {
        // Bounce on y.
        let push = if to_y > 0 {
            inter.h
        } else if to_y < 0 {
            -inter.h
        } else {
            0
        };
        a.y = a.y - push;
        let mag = abs64(vel.y);
        vel.y = if to_y > 0 {
            -mag
        } else if to_y < 0 {
            mag
        } else {
            0
        };
    } else {
        // Bounce on x.
        let push = if to_x > 0 {
            inter.w
        } else if to_x < 0 {
            -inter.w
        } else {
            0
        };
        a.x = a.x - push;
        let mag = abs64(vel.x);
        vel.x = if to_x > 0 {
            -mag
        } else if to_x < 0 {
            mag
        } else {
            0
        };
    }
    true
}

} // verus!
