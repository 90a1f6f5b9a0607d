//! The paddles: axis-aligned rectangles that slide vertically and stop at the
//! arena's top and bottom walls.

use vstd::prelude::*;

verus! {

use crate::model::{Arena, Vec2, moved, clamped_y, VEL_LIMIT, DT_LIMIT, POS_LIMIT, EXTENT_LIMIT};

/// Which wall a paddle guards. The two paddles share one shape; only the side
/// — and with it the horizontal position — differs.
#[derive(Clone, Copy, PartialEq, Eq, Structural, Debug)]
pub enum Side {
    Left,
    Right,
}

/// An axis-aligned paddle: top-left corner and extent in thousandths of a
/// pixel, vertical velocity in pixels per second. Paddles only move
/// vertically.
#[derive(Clone, Copy, PartialEq, Eq, Structural, Debug)]
pub struct Paddle {
    pub side: Side,
    pub pos: Vec2,
    pub size: Vec2,
    pub vel_y: i64,
}

impl Paddle {
    /// The paddle fits the arena vertically, sits inside it, and every field
    /// stays within the stepper's arithmetic range.
    pub open spec fn wf(self, arena: Arena) -> bool {
        &&& 0 <= self.size.x <= EXTENT_LIMIT
        &&& 0 <= self.size.y <= arena.height
        &&& -POS_LIMIT <= self.pos.x <= POS_LIMIT
        &&& 0 <= self.pos.y <= arena.height - self.size.y
        &&& -VEL_LIMIT <= self.vel_y <= VEL_LIMIT
    }

    /// One frame: move vertically by velocity times delta, then clamp the top
    /// into `[0, arena height - paddle height]`. Paddles stop at walls;
    /// nothing bounces and the velocity is kept as it is.
    pub fn advance(&mut self, dt: i64, arena: &Arena)
        requires
            old(self).wf(*arena),
            0 <= dt <= DT_LIMIT,
            arena.wf(),
        ensures
            final(self).pos.y as int == clamped_y(moved(old(self).pos.y as int,
                old(self).vel_y as int, dt as int), old(self).size.y as int,
                arena.height as int),
            0 <= final(self).pos.y <= arena.height - final(self).size.y,
            final(self).pos.x == old(self).pos.x,
            final(self).size == old(self).size,
            final(self).vel_y == old(self).vel_y,
            final(self).side == old(self).side,
            final(self).wf(*arena),
    {
        proof {
            let vy = old(self).vel_y as int;
            let d = dt as int;
            assert(-(VEL_LIMIT * DT_LIMIT) <= vy * d <= VEL_LIMIT * DT_LIMIT)
                by (nonlinear_arith)
                requires
                    -VEL_LIMIT <= vy <= VEL_LIMIT,
                    0 <= d <= DT_LIMIT,
            ;
        }
        self.pos.y = self.pos.y + self.vel_y * dt;

        if self.pos.y < 0 {
            self.pos.y = 0;
        }
        if self.pos.y + self.size.y > arena.height {
            self.pos.y = arena.height - self.size.y;
        }
    }
}

/// Clamping always lands in `[0, height - size]`, whatever coordinate the
/// velocity produced — including extreme values far outside the arena. With
/// the stepper's postcondition this keeps every paddle inside the arena after
/// any sequence of steps.
pub proof fn lemma_clamped_in_range(y: int, size: int, height: int)
    requires
        0 <= size <= height,
    ensures
        0 <= clamped_y(y, size, height) <= height - size,
{
}

} // verus!
