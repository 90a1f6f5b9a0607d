//! The ball: a circular body that drifts at constant velocity and reflects
//! off the arena walls.

use vstd::prelude::*;

verus! {

use crate::model::{Arena, Vec2, moved, hits_wall, reflected, VEL_LIMIT, DT_LIMIT, POS_LIMIT,
    EXTENT_LIMIT};

/// A circular body: centre position and radius in thousandths of a pixel,
/// velocity in pixels per second. A radius of zero gives the point
/// approximation.
#[derive(Clone, Copy, PartialEq, Eq, Structural, Debug)]
pub struct Ball {
    pub pos: Vec2,
    pub vel: Vec2,
    pub radius: i64,
}

impl Ball {
    /// Velocity and radius stay within the stepper's arithmetic range.
    pub open spec fn wf(self) -> bool {
        &&& -VEL_LIMIT <= self.vel.x <= VEL_LIMIT
        &&& -VEL_LIMIT <= self.vel.y <= VEL_LIMIT
        &&& 0 <= self.radius <= EXTENT_LIMIT
    }

    /// The centre is within the range one step's arithmetic accepts.
    pub open spec fn in_range(self) -> bool {
        &&& -POS_LIMIT <= self.pos.x <= POS_LIMIT
        &&& -POS_LIMIT <= self.pos.y <= POS_LIMIT
    }

    /// One frame: move the centre by velocity times delta, then negate each
    /// velocity component whose axis touches a wall. The position itself is
    /// never adjusted: reflection only turns the velocity around, so the ball
    /// may stand outside the arena for a step before its new velocity brings
    /// it back.
    pub fn advance(&mut self, dt: i64, arena: &Arena)
        requires
            old(self).wf(),
            old(self).in_range(),
            0 <= dt <= DT_LIMIT,
            arena.wf(),
        ensures
            final(self).pos.x as int == moved(old(self).pos.x as int, old(self).vel.x as int,
                dt as int),
            final(self).pos.y as int == moved(old(self).pos.y as int, old(self).vel.y as int,
                dt as int),
            final(self).vel.x as int == reflected(final(self).pos.x as int,
                old(self).radius as int, arena.width as int, old(self).vel.x as int),
            final(self).vel.y as int == reflected(final(self).pos.y as int,
                old(self).radius as int, arena.height as int, old(self).vel.y as int),
            final(self).radius == old(self).radius,
            final(self).wf(),
    {
        proof {
            let vx = old(self).vel.x as int;
            let vy = old(self).vel.y as int;
            let d = dt as int;
            assert(-(VEL_LIMIT * DT_LIMIT) <= vx * d <= VEL_LIMIT * DT_LIMIT)
                by (nonlinear_arith)
                requires
                    -VEL_LIMIT <= vx <= VEL_LIMIT,
                    0 <= d <= DT_LIMIT,
            ;
            assert(-(VEL_LIMIT * DT_LIMIT) <= vy * d <= VEL_LIMIT * DT_LIMIT)
                by (nonlinear_arith)
                requires
                    -VEL_LIMIT <= vy <= VEL_LIMIT,
                    0 <= d <= DT_LIMIT,
            ;
        }
        self.pos.x = self.pos.x + self.vel.x * dt;
        self.pos.y = self.pos.y + self.vel.y * dt;

        if self.pos.x - self.radius <= 0 || self.pos.x + self.radius >= arena.width {
            self.vel.x = -self.vel.x;
        }
        if self.pos.y - self.radius <= 0 || self.pos.y + self.radius >= arena.height {
            self.vel.y = -self.vel.y;
        }
    }
}

/// Reflection does not chatter. If one step negated the velocity on an axis
/// because the body touched a wall there, and the following step brings the
/// body strictly inside that axis, then the following step leaves the
/// velocity exactly as the reflection set it: it is not negated again until
/// a wall is touched again.
pub proof fn lemma_reflection_no_chatter(pos0: int, vel0: int, radius: int, limit: int,
    dt1: int, dt2: int)
    requires
        hits_wall(moved(pos0, vel0, dt1), radius, limit),
        !hits_wall(moved(moved(pos0, vel0, dt1), -vel0, dt2), radius, limit),
    ensures
        reflected(moved(pos0, vel0, dt1), radius, limit, vel0) == -vel0,
        reflected(moved(moved(pos0, vel0, dt1), -vel0, dt2), radius, limit, -vel0) == -vel0,
{
}

} // verus!
