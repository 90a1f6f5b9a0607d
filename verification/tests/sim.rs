//! The simulation stepped on concrete states: straight flight, wall
//! reflection, paddle clamping, and the documented starting state.
//!
//! Coordinates are in thousandths of a pixel, velocities in pixels per
//! second, deltas in milliseconds.

use paddle_ball::ball::Ball;
use paddle_ball::game::PaddleBallGame;
use paddle_ball::model::{Arena, Vec2};
use paddle_ball::paddle::{Paddle, Side};

fn arena_1000_by_750() -> Arena {
    Arena {
        width: 1_000_000,
        height: 750_000,
    }
}

fn left_paddle_at(y: i64, vel_y: i64) -> Paddle {
    Paddle {
        side: Side::Left,
        pos: Vec2 { x: 10_000, y },
        size: Vec2 {
            x: 10_000,
            y: 150_000,
        },
        vel_y,
    }
}

#[test]
fn new_builds_the_documented_state() {
    let g = PaddleBallGame::new(1200, 900);
    assert_eq!(g.arena, Arena { width: 1_200_000, height: 900_000 });
    assert_eq!(g.ball.pos, Vec2 { x: 600_000, y: 450_000 });
    assert_eq!(g.ball.vel, Vec2 { x: 650, y: 400 });
    assert_eq!(g.ball.radius, 18_000);
    assert_eq!(g.left_paddle.side, Side::Left);
    assert_eq!(g.left_paddle.pos, Vec2 { x: 10_000, y: 400_000 });
    assert_eq!(g.left_paddle.size, Vec2 { x: 10_000, y: 150_000 });
    assert_eq!(g.left_paddle.vel_y, 0);
    assert_eq!(g.right_paddle.side, Side::Right);
    assert_eq!(g.right_paddle.pos, Vec2 { x: 1_180_000, y: 400_000 });
    assert_eq!(g.right_paddle.size, Vec2 { x: 10_000, y: 150_000 });
    assert_eq!(g.right_paddle.vel_y, 0);
}

#[test]
fn ball_moves_by_velocity_times_delta() {
    let arena = arena_1000_by_750();
    let mut b = Ball {
        pos: Vec2 { x: 500_000, y: 375_000 },
        vel: Vec2 { x: 300, y: 250 },
        radius: 0,
    };
    b.advance(1000, &arena);
    // One second at (300, 250) pixels per second, far from every wall.
    assert_eq!(b.pos, Vec2 { x: 800_000, y: 625_000 });
    assert_eq!(b.vel, Vec2 { x: 300, y: 250 });
}

#[test]
fn repeated_steps_reflect_at_the_far_walls() {
    let arena = arena_1000_by_750();
    let mut b = Ball {
        pos: Vec2 { x: 500_000, y: 375_000 },
        vel: Vec2 { x: 300, y: 250 },
        radius: 0,
    };

    b.advance(1000, &arena);
    assert_eq!(b.pos, Vec2 { x: 800_000, y: 625_000 });
    assert_eq!(b.vel, Vec2 { x: 300, y: 250 });

    // The second step crosses both far walls, so both components flip.
    b.advance(1000, &arena);
    assert_eq!(b.pos, Vec2 { x: 1_100_000, y: 875_000 });
    assert_eq!(b.vel, Vec2 { x: -300, y: -250 });

    // The third step comes back strictly inside: no second negation.
    b.advance(1000, &arena);
    assert_eq!(b.pos, Vec2 { x: 800_000, y: 625_000 });
    assert_eq!(b.vel, Vec2 { x: -300, y: -250 });
}

#[test]
fn ball_on_the_left_wall_reflects_with_zero_delta() {
    let arena = arena_1000_by_750();
    let mut b = Ball {
        pos: Vec2 { x: 0, y: 375_000 },
        vel: Vec2 { x: -300, y: 0 },
        radius: 0,
    };
    b.advance(0, &arena);
    // The wall is inclusive: standing exactly on it flips the velocity.
    assert_eq!(b.pos, Vec2 { x: 0, y: 375_000 });
    assert_eq!(b.vel.x, 300);
}

#[test]
fn reflection_accounts_for_the_radius() {
    let arena = arena_1000_by_750();
    let mut b = Ball {
        pos: Vec2 { x: 990_000, y: 375_000 },
        vel: Vec2 { x: 200, y: 0 },
        radius: 18_000,
    };
    b.advance(0, &arena);
    // The centre is 10 pixels from the right wall, the radius is 18.
    assert_eq!(b.vel.x, -200);
}

#[test]
fn left_paddle_stays_clamped_at_the_top() {
    let arena = arena_1000_by_750();
    let mut p = left_paddle_at(0, -500);
    for _ in 0..5 {
        p.advance(100, &arena);
        assert_eq!(p.pos.y, 0);
        assert_eq!(p.vel_y, -500);
    }
}

#[test]
fn extreme_velocity_clamps_to_the_bottom() {
    let arena = arena_1000_by_750();
    let mut p = left_paddle_at(300_000, 1_000_000);
    p.advance(1000, &arena);
    // A million pixels per second for one second still stops at the wall.
    assert_eq!(p.pos.y, 600_000);
}

#[test]
fn paddle_moves_freely_between_the_walls() {
    let arena = arena_1000_by_750();
    let mut p = left_paddle_at(300_000, 100);
    p.advance(500, &arena);
    assert_eq!(p.pos.y, 350_000);
    p.advance(500, &arena);
    assert_eq!(p.pos.y, 400_000);
}

#[test]
fn whole_game_step_moves_ball_and_paddles() {
    let mut g = PaddleBallGame::new(1000, 750);
    g.left_paddle.vel_y = -500;
    g.advance(1000);
    // The ball crossed both far walls and had both components flipped.
    assert_eq!(g.ball.pos, Vec2 { x: 1_150_000, y: 775_000 });
    assert_eq!(g.ball.vel, Vec2 { x: -650, y: -400 });
    // The left paddle ran into the top wall and stopped there.
    assert_eq!(g.left_paddle.pos.y, 0);
    // The right paddle is stationary.
    assert_eq!(g.right_paddle.pos.y, 325_000);
    assert_eq!(g.arena, Arena { width: 1_000_000, height: 750_000 });
}
