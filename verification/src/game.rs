//! The whole simulation: one ball and two paddles in a fixed arena, advanced
//! one frame at a time.

use vstd::prelude::*;

verus! {

use crate::model::{Arena, Vec2, moved, reflected, clamped_y, DT_LIMIT, SUBUNITS_PER_PIXEL};
use crate::ball::Ball;
use crate::paddle::{Paddle, Side};

/// The ball's starting velocity, in pixels per second.
pub const BALL_START_VEL_X: i64 = 650;

pub const BALL_START_VEL_Y: i64 = 400;

/// The ball's radius, in thousandths of a pixel.
pub const BALL_RADIUS: i64 = 18_000;

/// Paddle extent, in thousandths of a pixel.
pub const PADDLE_WIDTH: i64 = 10_000;

pub const PADDLE_HEIGHT: i64 = 150_000;

/// Where each paddle stands horizontally, in thousandths of a pixel.
pub const LEFT_PADDLE_X: i64 = 10_000;

pub const RIGHT_PADDLE_X: i64 = 1_180_000;

/// How far above the arena's vertical centre a paddle's top starts, in
/// thousandths of a pixel.
pub const PADDLE_START_RISE: i64 = 50_000;

/// Smallest arena height, in pixels, at which the starting paddles fit the
/// arena: the top at half the height minus the rise must be at least zero,
/// and a paddle height below it must still fit.
pub const MIN_ARENA_HEIGHT_PIXELS: i64 = 200;

/// Largest arena side, in pixels, that still fits the coordinate range.
pub const MAX_ARENA_SIDE_PIXELS: i64 = 1_000_000_000;

/// The whole simulation state. Constructed once, then mutated in place, one
/// frame at a time.
#[derive(Clone, Copy, PartialEq, Eq, Structural, Debug)]
pub struct PaddleBallGame {
    pub ball: Ball,
    pub left_paddle: Paddle,
    pub right_paddle: Paddle,
    pub arena: Arena,
}

impl PaddleBallGame {
    /// Every part of the state fits the arena and the stepper's arithmetic
    /// range. Established by the constructor and preserved by every step.
    pub open spec fn wf(self) -> bool {
        &&& self.arena.wf()
        &&& self.ball.wf()
        &&& self.left_paddle.wf(self.arena)
        &&& self.right_paddle.wf(self.arena)
    }

    /// The starting state for an arena of the given size in pixels: the ball
    /// at the centre with the fixed starting velocity, both paddles
    /// stationary with their tops just above the vertical centre, the left
    /// one at the left wall and the right one at its fixed column.
    pub fn new(arena_width_pixels: i64, arena_height_pixels: i64) -> (g: PaddleBallGame)
        requires
            0 < arena_width_pixels <= MAX_ARENA_SIDE_PIXELS,
            MIN_ARENA_HEIGHT_PIXELS <= arena_height_pixels <= MAX_ARENA_SIDE_PIXELS,
        ensures
            g.arena.width == arena_width_pixels * SUBUNITS_PER_PIXEL,
            g.arena.height == arena_height_pixels * SUBUNITS_PER_PIXEL,
            g.ball.pos.x * 2 == g.arena.width,
            g.ball.pos.y * 2 == g.arena.height,
            g.ball.vel == (Vec2 { x: BALL_START_VEL_X, y: BALL_START_VEL_Y }),
            g.ball.radius == BALL_RADIUS,
            g.left_paddle.side == Side::Left,
            g.right_paddle.side == Side::Right,
            g.left_paddle.pos.x == LEFT_PADDLE_X,
            g.right_paddle.pos.x == RIGHT_PADDLE_X,
            g.left_paddle.pos.y as int == g.ball.pos.y - PADDLE_START_RISE,
            g.right_paddle.pos.y as int == g.ball.pos.y - PADDLE_START_RISE,
            g.left_paddle.size == (Vec2 { x: PADDLE_WIDTH, y: PADDLE_HEIGHT }),
            g.right_paddle.size == (Vec2 { x: PADDLE_WIDTH, y: PADDLE_HEIGHT }),
            g.left_paddle.vel_y == 0,
            g.right_paddle.vel_y == 0,
            g.wf(),
            g.ball.in_range(),
    {
        // Half of SUBUNITS_PER_PIXEL: a pixel count times 500 is half that
        // many pixels in coordinate units.
        let centre_x: i64 = arena_width_pixels * 500;
        let centre_y: i64 = arena_height_pixels * 500;
        let paddle_y: i64 = centre_y - PADDLE_START_RISE;
        PaddleBallGame {
            ball: Ball {
                pos: Vec2 { x: centre_x, y: centre_y },
                vel: Vec2 { x: BALL_START_VEL_X, y: BALL_START_VEL_Y },
                radius: BALL_RADIUS,
            },
            left_paddle: Paddle {
                side: Side::Left,
                pos: Vec2 { x: LEFT_PADDLE_X, y: paddle_y },
                size: Vec2 { x: PADDLE_WIDTH, y: PADDLE_HEIGHT },
                vel_y: 0,
            },
            right_paddle: Paddle {
                side: Side::Right,
                pos: Vec2 { x: RIGHT_PADDLE_X, y: paddle_y },
                size: Vec2 { x: PADDLE_WIDTH, y: PADDLE_HEIGHT },
                vel_y: 0,
            },
            arena: Arena {
                width: arena_width_pixels * SUBUNITS_PER_PIXEL,
                height: arena_height_pixels * SUBUNITS_PER_PIXEL,
            },
        }
    }

    /// One frame of the simulation, `dt` milliseconds long: the ball moves by
    /// its velocity times `dt` and reflects off walls it touches; each paddle
    /// moves by its own vertical velocity times `dt` and is clamped into the
    /// arena. The arena and every velocity magnitude are unchanged, so the
    /// state stays well formed for the next frame.
    pub fn advance(&mut self, dt: i64)
        requires
            old(self).wf(),
            old(self).ball.in_range(),
            0 <= dt <= DT_LIMIT,
        ensures
            final(self).arena == old(self).arena,
            final(self).ball.pos.x as int == moved(old(self).ball.pos.x as int,
                old(self).ball.vel.x as int, dt as int),
            final(self).ball.pos.y as int == moved(old(self).ball.pos.y as int,
                old(self).ball.vel.y as int, dt as int),
            final(self).ball.vel.x as int == reflected(final(self).ball.pos.x as int,
                old(self).ball.radius as int, old(self).arena.width as int,
                old(self).ball.vel.x as int),
            final(self).ball.vel.y as int == reflected(final(self).ball.pos.y as int,
                old(self).ball.radius as int, old(self).arena.height as int,
                old(self).ball.vel.y as int),
            final(self).ball.radius == old(self).ball.radius,
            final(self).left_paddle.pos.y as int == clamped_y(
                moved(old(self).left_paddle.pos.y as int, old(self).left_paddle.vel_y as int,
                    dt as int), old(self).left_paddle.size.y as int,
                old(self).arena.height as int),
            final(self).right_paddle.pos.y as int == clamped_y(
                moved(old(self).right_paddle.pos.y as int, old(self).right_paddle.vel_y as int,
                    dt as int), old(self).right_paddle.size.y as int,
                old(self).arena.height as int),
            0 <= final(self).left_paddle.pos.y
                <= final(self).arena.height - final(self).left_paddle.size.y,
            0 <= final(self).right_paddle.pos.y
                <= final(self).arena.height - final(self).right_paddle.size.y,
            final(self).left_paddle.pos.x == old(self).left_paddle.pos.x,
            final(self).right_paddle.pos.x == old(self).right_paddle.pos.x,
            final(self).left_paddle.size == old(self).left_paddle.size,
            final(self).right_paddle.size == old(self).right_paddle.size,
            final(self).left_paddle.vel_y == old(self).left_paddle.vel_y,
            final(self).right_paddle.vel_y == old(self).right_paddle.vel_y,
            final(self).left_paddle.side == old(self).left_paddle.side,
            final(self).right_paddle.side == old(self).right_paddle.side,
            final(self).wf(),
    {
        let arena = self.arena;
        self.ball.advance(dt, &arena);
        self.left_paddle.advance(dt, &arena);
        self.right_paddle.advance(dt, &arena);
    }
}

} // verus!
