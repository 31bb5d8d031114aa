use breakout::entities::Ball;
use breakout::game::{lose_statement, reset, FrameInput, Game, GameState};
use breakout::geometry::Vec2;

const SW: i64 = 800_000;
const SH: i64 = 600_000;

fn launch() -> Vec2 {
    // A normalized direction scaled by 1000, pointing down-right.
    Vec2 { x: 600, y: 800 }
}

fn idle_input() -> FrameInput {
    FrameInput {
        dt_ms: 0,
        sw: SW,
        sh: SH,
        left_held: false,
        right_held: false,
        fire_pressed: false,
        launch: launch(),
    }
}

#[test]
fn fresh_game_is_in_the_menu() {
    let g = Game::new(SW, SH, launch());
    assert!(matches!(g.state, GameState::Menu));
    assert_eq!(g.score, 0);
    assert_eq!(g.lives, 3);
    assert_eq!(g.blocks.len(), 36);
    assert_eq!(g.ball.shape.x, 400_000);
    assert_eq!(g.ball.shape.y, 300_000);
    assert_eq!(g.ball.vel, launch());
}

#[test]
fn menu_waits_for_the_start_signal() {
    let mut g = Game::new(SW, SH, launch());
    g.step(idle_input());
    assert!(matches!(g.state, GameState::Menu));
    let mut fire = idle_input();
    fire.fire_pressed = true;
    g.step(fire);
    assert!(matches!(g.state, GameState::Game));
    assert_eq!(g.score, 0);
    assert_eq!(g.lives, 3);
}

#[test]
fn one_hit_scores_ten_and_damages_one_block() {
    let mut g = Game::new(SW, SH, launch());
    g.state = GameState::Game;
    // Place the ball over the first block (at 100, 50 units) so that
    // exactly one collision resolves this frame.
    g.ball.shape.x = 125_000;
    g.ball.shape.y = 40_000;
    g.step(idle_input());
    assert_eq!(g.score, 10);
    assert_eq!(g.blocks.len(), 36);
    assert_eq!(g.blocks[0].lives, 1);
    for b in g.blocks.iter().skip(1) {
        assert_eq!(b.lives, 2);
    }
    // The bounce pushed the ball back out above the block, upward.
    assert_eq!(g.ball.shape.y, 15_000);
    assert_eq!(g.ball.vel, Vec2 { x: 600, y: -800 });
}

#[test]
fn a_frame_without_contact_scores_nothing() {
    let mut g = Game::new(SW, SH, launch());
    g.state = GameState::Game;
    g.step(idle_input());
    assert_eq!(g.score, 0);
    assert_eq!(g.blocks.len(), 36);
}

#[test]
fn clearing_the_grid_wins_with_full_score() {
    let mut g = Game::new(SW, SH, launch());
    g.state = GameState::Game;
    let mut frames = 0;
    for _round in 0..2 {
        for row in 0..6i64 {
            for col in 0..6i64 {
                let bx = 100_000 + col * 100_000;
                let by = 50_000 + row * 40_000;
                g.ball.shape.x = bx + 25_000;
                g.ball.shape.y = by - 10_000;
                g.ball.vel = launch();
                g.step(idle_input());
                frames += 1;
            }
        }
    }
    assert_eq!(frames, 72);
    assert_eq!(g.score, 720);
    assert_eq!(g.blocks.len(), 0);
    assert!(matches!(g.state, GameState::LevelCompleted));
}

#[test]
fn losing_the_last_life_ends_the_game() {
    let mut g = Game::new(SW, SH, launch());
    g.state = GameState::Game;
    g.lives = 1;
    g.ball.shape.x = 400_000;
    g.ball.shape.y = SH + 5_000;
    g.step(idle_input());
    assert_eq!(g.lives, 0);
    assert!(matches!(g.state, GameState::Dead));
    // Relaunched from just above the paddle's center (480 units), pointing
    // up; the same frame's paddle bounce then nudges it up to 465.
    assert_eq!(g.ball.shape.x, 325_000 + 75_000);
    assert_eq!(g.ball.shape.y, 465_000);
    assert_eq!(g.ball.vel, Vec2 { x: 600, y: -800 });
}

#[test]
fn losing_a_life_keeps_playing_while_lives_remain() {
    let mut g = Game::new(SW, SH, launch());
    g.state = GameState::Game;
    g.ball.shape.x = 400_000;
    g.ball.shape.y = SH + 5_000;
    g.step(idle_input());
    assert_eq!(g.lives, 2);
    assert!(matches!(g.state, GameState::Game));
}

#[test]
fn restart_after_winning_resets_the_session() {
    let mut g = Game::new(SW, SH, launch());
    g.state = GameState::LevelCompleted;
    g.blocks = Vec::new();
    g.score = 720;
    g.lives = 2;
    g.step(idle_input());
    assert!(matches!(g.state, GameState::LevelCompleted));
    let mut fire = idle_input();
    fire.fire_pressed = true;
    g.step(fire);
    assert!(matches!(g.state, GameState::Game));
    assert_eq!(g.score, 0);
    assert_eq!(g.lives, 3);
    assert_eq!(g.blocks.len(), 36);
    for b in &g.blocks {
        assert_eq!(b.lives, 2);
    }
    assert_eq!(g.ball.shape.x, 400_000);
    assert_eq!(g.ball.shape.y, 300_000);
}

#[test]
fn restart_after_losing_resets_the_session() {
    let mut g = Game::new(SW, SH, launch());
    g.state = GameState::Dead;
    g.lives = 0;
    let mut fire = idle_input();
    fire.fire_pressed = true;
    g.step(fire);
    assert!(matches!(g.state, GameState::Game));
    assert_eq!(g.score, 0);
    assert_eq!(g.lives, 3);
    assert_eq!(g.blocks.len(), 36);
}

#[test]
fn clearing_the_last_block_outranks_dying_in_the_same_frame() {
    // The win check runs after the loss check, so a frame that loses the
    // last life and also clears the last block ends in LevelCompleted.
    let mut g = Game::new(SW, SH, launch());
    g.state = GameState::Game;
    g.lives = 1;
    g.score = 710;
    g.blocks = vec![breakout::entities::Block {
        rect: breakout::geometry::Rect { x: 380_000, y: 455_000, w: 85_000, h: 25_000 },
        lives: 1,
    }];
    // The ball has fallen out at the bottom: it is relaunched above the
    // paddle, bounces off the paddle, and from there hits the block.
    g.ball.shape.x = 400_000;
    g.ball.shape.y = SH + 5_000;
    g.step(idle_input());
    assert_eq!(g.lives, 0);
    assert_eq!(g.score, 720);
    assert_eq!(g.blocks.len(), 0);
    assert!(matches!(g.state, GameState::LevelCompleted));
}

#[test]
fn the_largest_playfield_is_accepted() {
    let mut g = Game::new(10_000_000, 10_000_000, launch());
    assert_eq!(g.blocks.len(), 36);
    assert_eq!(g.blocks[0].rect.x, 4_700_000);
    let mut input = idle_input();
    input.sw = 10_000_000;
    input.sh = 10_000_000;
    input.fire_pressed = true;
    input.dt_ms = 1000;
    g.step(input);
    g.step(input);
    assert!(matches!(g.state, GameState::Game));
}

#[test]
fn lose_statement_leaves_a_high_ball_alone() {
    let mut ball = Ball::new(Vec2 { x: 100_000, y: 100_000 }, launch());
    let mut lives: i64 = 3;
    let mut state = GameState::Game;
    let player_shape = breakout::geometry::Rect { x: 325_000, y: 500_000, w: 150_000, h: 40_000 };
    lose_statement(&mut ball, &mut lives, player_shape, &mut state, SH, launch());
    assert_eq!(lives, 3);
    assert!(matches!(state, GameState::Game));
    assert_eq!(ball.shape.x, 100_000);
    assert_eq!(ball.shape.y, 100_000);
}

#[test]
fn reset_rebuilds_everything() {
    let mut g = Game::new(SW, SH, launch());
    g.score = 500;
    g.lives = 1;
    g.blocks.truncate(3);
    reset(&mut g.lives, &mut g.score, &mut g.ball, &mut g.player, &mut g.blocks, SW, SH,
        Vec2 { x: -600, y: 800 });
    assert_eq!(g.score, 0);
    assert_eq!(g.lives, 3);
    assert_eq!(g.blocks.len(), 36);
    assert_eq!(g.player.rect.x, 325_000);
    assert_eq!(g.ball.vel, Vec2 { x: -600, y: 800 });
}
