use breakout::geometry::{intersect, resolve_collision, Rect, Vec2};

fn rect(x: i64, y: i64, w: i64, h: i64) -> Rect {
    Rect { x, y, w, h }
}

#[test]
fn no_overlap_returns_false_and_changes_nothing() {
    let mut a = rect(0, 0, 35_000, 35_000);
    let mut v = Vec2 { x: 700, y: 700 };
    let b = rect(100_000, 100_000, 85_000, 25_000);
    let hit = resolve_collision(&mut a, &mut v, &b);
    assert!(!hit);
    assert_eq!(a, rect(0, 0, 35_000, 35_000));
    assert_eq!(v, Vec2 { x: 700, y: 700 });
}

#[test]
fn edge_contact_is_no_overlap() {
    // Rectangles sharing exactly one edge must not collide.
    let mut a = rect(0, 0, 10_000, 10_000);
    let mut v = Vec2 { x: 100, y: 100 };
    let b = rect(10_000, 0, 10_000, 10_000);
    assert!(intersect(&a, &b).is_none());
    assert!(!resolve_collision(&mut a, &mut v, &b));
}

#[test]
fn zero_size_rect_never_overlaps() {
    let mut a = rect(5_000, 5_000, 0, 0);
    let mut v = Vec2 { x: 100, y: 100 };
    let b = rect(0, 0, 10_000, 10_000);
    assert!(intersect(&a, &b).is_none());
    assert!(!resolve_collision(&mut a, &mut v, &b));
}

#[test]
fn intersect_gives_the_overlap_rect() {
    let a = rect(0, 0, 10_000, 10_000);
    let b = rect(6_000, 7_000, 10_000, 10_000);
    let i = intersect(&a, &b).unwrap();
    assert_eq!(i, rect(6_000, 7_000, 4_000, 3_000));
}

#[test]
fn wide_overlap_bounces_on_y() {
    // Ball coming down onto the top of a block: the intersection is wider
    // than tall, so the bounce is vertical.
    let mut a = rect(10_000, 0, 35_000, 35_000);
    let mut v = Vec2 { x: 300, y: 400 };
    let b = rect(0, 30_000, 85_000, 25_000);
    let hit = resolve_collision(&mut a, &mut v, &b);
    assert!(hit);
    // Intersection height is 5_000; the ball is pushed back up by it.
    assert_eq!(a, rect(10_000, -5_000, 35_000, 35_000));
    // The y velocity now points up, magnitude kept; x is untouched.
    assert_eq!(v, Vec2 { x: 300, y: -400 });
}

#[test]
fn tall_overlap_bounces_on_x() {
    // Ball hitting the left side of a block.
    let mut a = rect(0, 0, 35_000, 35_000);
    let mut v = Vec2 { x: 500, y: 200 };
    let b = rect(30_000, -20_000, 85_000, 75_000);
    let hit = resolve_collision(&mut a, &mut v, &b);
    assert!(hit);
    // Intersection is 5_000 wide and 35_000 tall: horizontal bounce.
    assert_eq!(a, rect(-5_000, 0, 35_000, 35_000));
    assert_eq!(v, Vec2 { x: -500, y: 200 });
}

#[test]
fn square_overlap_tie_breaks_horizontal() {
    // Equal width and height of the intersection resolves as horizontal.
    let mut a = rect(0, 0, 10_000, 10_000);
    let mut v = Vec2 { x: 250, y: 250 };
    let b = rect(5_000, 5_000, 10_000, 10_000);
    let hit = resolve_collision(&mut a, &mut v, &b);
    assert!(hit);
    assert_eq!(a, rect(-5_000, 0, 10_000, 10_000));
    assert_eq!(v, Vec2 { x: -250, y: 250 });
}

#[test]
fn bounce_away_from_center_direction() {
    // Ball below the block's center is pushed down and its velocity is
    // forced downward, whatever it was before.
    let mut a = rect(10_000, 20_000, 35_000, 35_000);
    let mut v = Vec2 { x: 100, y: -900 };
    let b = rect(0, 0, 85_000, 25_000);
    let hit = resolve_collision(&mut a, &mut v, &b);
    assert!(hit);
    // Intersection height 5_000; static center above moving center.
    assert_eq!(a, rect(10_000, 25_000, 35_000, 35_000));
    assert_eq!(v, Vec2 { x: 100, y: 900 });
}
