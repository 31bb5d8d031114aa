use breakout::entities::{Ball, Block, Player};
use breakout::geometry::{Rect, Vec2};

const SW: i64 = 800_000;
const SH: i64 = 600_000;

#[test]
fn player_starts_centered_above_bottom() {
    let p = Player::new(SW, SH);
    assert_eq!(p.rect, Rect { x: 325_000, y: 500_000, w: 150_000, h: 40_000 });
}

#[test]
fn player_moves_left_and_right() {
    let mut p = Player::new(SW, SH);
    p.update(16, false, true, SW);
    // 700 milli-units per millisecond for 16 ms.
    assert_eq!(p.rect.x, 325_000 + 11_200);
    p.update(16, true, false, SW);
    assert_eq!(p.rect.x, 325_000);
}

#[test]
fn player_holding_both_or_neither_stays() {
    let mut p = Player::new(SW, SH);
    p.update(100, true, true, SW);
    assert_eq!(p.rect.x, 325_000);
    p.update(100, false, false, SW);
    assert_eq!(p.rect.x, 325_000);
}

#[test]
fn player_clamps_at_left_edge() {
    let mut p = Player::new(SW, SH);
    p.rect.x = 0;
    p.update(16, true, false, SW);
    assert_eq!(p.rect.x, 0);
}

#[test]
fn player_clamps_at_right_edge() {
    let mut p = Player::new(SW, SH);
    p.rect.x = SW - 150_000;
    p.update(1000, false, true, SW);
    assert_eq!(p.rect.x, SW - 150_000);
}

#[test]
fn grid_has_36_fresh_blocks() {
    let blocks = Block::init(SW);
    assert_eq!(blocks.len(), 36);
    for b in &blocks {
        assert_eq!(b.lives, 2);
        assert_eq!(b.rect.w, 85_000);
        assert_eq!(b.rect.h, 25_000);
    }
    // Centered: (800 - 600) / 2 = 100 units in from the left.
    assert_eq!(blocks[0].rect.x, 100_000);
    assert_eq!(blocks[0].rect.y, 50_000);
    // Row-major: block 7 is column 1 of row 1.
    assert_eq!(blocks[7].rect.x, 200_000);
    assert_eq!(blocks[7].rect.y, 90_000);
    assert_eq!(blocks[35].rect.x, 600_000);
    assert_eq!(blocks[35].rect.y, 250_000);
}

#[test]
fn grid_centers_on_a_narrow_playfield() {
    let blocks = Block::init(400_000);
    assert_eq!(blocks[0].rect.x, -100_000);
}

#[test]
fn block_new_takes_two_hits() {
    let b = Block::new(Vec2 { x: 12_000, y: 34_000 });
    assert_eq!(b.rect, Rect { x: 12_000, y: 34_000, w: 85_000, h: 25_000 });
    assert_eq!(b.lives, 2);
}

#[test]
fn ball_moves_by_velocity_speed_and_time() {
    let mut ball = Ball::new(Vec2 { x: 100_000, y: 100_000 }, Vec2 { x: 600, y: 800 });
    ball.update(16, SW);
    // dx = 600 * 400 * 16 / 1000 = 3_840; dy = 800 * 400 * 16 / 1000 = 5_120.
    assert_eq!(ball.shape.x, 103_840);
    assert_eq!(ball.shape.y, 105_120);
    assert_eq!(ball.vel, Vec2 { x: 600, y: 800 });
}

#[test]
fn ball_reflects_off_left_edge() {
    let mut ball = Ball::new(Vec2 { x: 1_000, y: 100_000 }, Vec2 { x: -600, y: 800 });
    ball.update(16, SW);
    assert!(ball.shape.x < 0);
    // The sign is forced positive, the magnitude kept.
    assert_eq!(ball.vel, Vec2 { x: 600, y: 800 });
}

#[test]
fn ball_reflects_off_right_edge() {
    let mut ball = Ball::new(Vec2 { x: SW - 36_000, y: 100_000 }, Vec2 { x: 600, y: 800 });
    ball.update(16, SW);
    assert!(ball.shape.x > SW - 35_000);
    assert_eq!(ball.vel, Vec2 { x: -600, y: 800 });
}

#[test]
fn ball_reflects_off_top_edge() {
    let mut ball = Ball::new(Vec2 { x: 100_000, y: 1_000 }, Vec2 { x: 600, y: -800 });
    ball.update(16, SW);
    assert!(ball.shape.y < 0);
    assert_eq!(ball.vel, Vec2 { x: 600, y: 800 });
}

#[test]
fn ball_does_not_reflect_off_bottom_edge() {
    let mut ball = Ball::new(Vec2 { x: 100_000, y: SH - 1_000 }, Vec2 { x: 0, y: 800 });
    ball.update(1000, SW);
    // Falling out at the bottom leaves the velocity downward: the loss
    // check owns that edge.
    assert!(ball.shape.y > SH);
    assert_eq!(ball.vel, Vec2 { x: 0, y: 800 });
}

#[test]
fn ball_reset_defaults_to_playfield_center() {
    let mut ball = Ball::new(Vec2 { x: 0, y: 0 }, Vec2 { x: 1, y: 1 });
    ball.reset(None, Vec2 { x: -447, y: 894 }, SW, SH);
    assert_eq!(ball.shape.x, 400_000);
    assert_eq!(ball.shape.y, 300_000);
    assert_eq!(ball.vel, Vec2 { x: -447, y: 894 });
}

#[test]
fn ball_reset_takes_the_given_point() {
    let mut ball = Ball::new(Vec2 { x: 0, y: 0 }, Vec2 { x: 1, y: 1 });
    ball.reset(Some(Vec2 { x: 7_000, y: 9_000 }), Vec2 { x: 0, y: 1_000 }, SW, SH);
    assert_eq!(ball.shape, Rect { x: 7_000, y: 9_000, w: 35_000, h: 35_000 });
    assert_eq!(ball.vel, Vec2 { x: 0, y: 1_000 });
}
