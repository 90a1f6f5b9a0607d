//! Units, arithmetic limits, and the axis-level step functions the whole
//! simulation is specified with.

use vstd::prelude::*;

verus! {

/// Coordinate units per pixel. Positions, extents and arena sides are stored
/// in thousandths of a pixel, so that a velocity in pixels per second times a
/// delta in milliseconds is exactly a displacement in coordinate units.
pub const SUBUNITS_PER_PIXEL: i64 = 1000;

/// Largest velocity magnitude, in pixels per second, a stepper call accepts.
pub const VEL_LIMIT: i64 = 1_000_000_000;

/// Largest frame delta, in milliseconds, a stepper call accepts.
pub const DT_LIMIT: i64 = 1_000_000_000;

/// Largest coordinate magnitude, in thousandths of a pixel, a stepper call
/// accepts. A step moves a coordinate by at most `VEL_LIMIT * DT_LIMIT`, so
/// every intermediate value stays well inside `i64`.
pub const POS_LIMIT: i64 = 4_000_000_000_000_000_000;

/// Largest extent (arena side, paddle side, ball radius), in thousandths of a
/// pixel.
pub const EXTENT_LIMIT: i64 = 1_000_000_000_000;

/// A two-dimensional integer vector: a position or extent in thousandths of a
/// pixel, or a velocity in pixels per second.
#[derive(Clone, Copy, PartialEq, Eq, Structural, Debug)]
pub struct Vec2 {
    pub x: i64,
    pub y: i64,
}

/// The fixed rectangular simulation space, in thousandths of a pixel.
/// Immutable after construction.
#[derive(Clone, Copy, PartialEq, Eq, Structural, Debug)]
pub struct Arena {
    pub width: i64,
    pub height: i64,
}

impl Arena {
    /// Both sides are positive and within the stepper's arithmetic range.
    pub open spec fn wf(self) -> bool {
        &&& 0 < self.width <= EXTENT_LIMIT
        &&& 0 < self.height <= EXTENT_LIMIT
    }
}

/// The coordinate reached after `dt` milliseconds at `vel` pixels per second,
/// starting from `pos` thousandths of a pixel.
pub open spec fn moved(pos: int, vel: int, dt: int) -> int {
    pos + vel * dt
}

/// Whether a body centred at `pos` with half-extent `radius` touches either
/// wall of an axis of length `limit`. Both walls are inclusive: sitting
/// exactly on a wall counts as touching it.
pub open spec fn hits_wall(pos: int, radius: int, limit: int) -> bool {
    pos - radius <= 0 || pos + radius >= limit
}

/// The velocity after the boundary check on one axis: negated exactly when
/// the body touches a wall, otherwise unchanged. Reflection turns the
/// velocity around; it never moves the body.
pub open spec fn reflected(pos: int, radius: int, limit: int, vel: int) -> int {
    if hits_wall(pos, radius, limit) {
        -vel
    } else {
        vel
    }
}

/// `y` clamped into `[0, height - size]` the way the stepper does it: the
/// floor first, then the ceiling, so the ceiling wins if the two overlap.
pub open spec fn clamped_y(y: int, size: int, height: int) -> int {
    let floored = if y < 0 { 0 } else { y };
    if floored + size > height {
        height - size
    } else {
        floored
    }
}

} // verus!
