//! The motion integrator: a point mass with a per-frame velocity, advanced
//! by one Euler step per frame and reflected at the edges of the logical
//! bounds rectangle.

use vstd::prelude::*;

verus! {

/// Coordinates and velocities are fixed-point values in thousandths of a
/// logical unit: a position of 10.0 units is held as `10 * SCALE`.
pub const SCALE: i64 = 1000;

/// Width of the logical bounds rectangle, in thousandths of a unit.
pub const X_LIMIT: i64 = 800 * 1000;

/// Height of the logical bounds rectangle, in thousandths of a unit.
pub const Y_LIMIT: i64 = 600 * 1000;

/// Largest velocity magnitude a ball is created with, in thousandths of a
/// unit per frame.
pub const VEL_LIMIT: i64 = 10 * 1000;

/// A point mass: a position and a per-frame velocity, in thousandths of a
/// logical unit.
pub struct Ball {
    pub x: i64,
    pub y: i64,
    pub dx: i64,
    pub dy: i64,
}

/// A coordinate on or past either bound of `[0, limit]` reflects its axis.
/// This is checked against the coordinate a step lands on, every frame,
/// so a ball lingering at or past a bound keeps renegating its velocity.
pub open spec fn reflects(coord: int, limit: int) -> bool {
    coord <= 0 || coord >= limit
}

/// The velocity one axis carries after a step against `[0, limit]`:
/// negated exactly when the stepped coordinate reflects.
pub open spec fn stepped_vel(pos: int, vel: int, limit: int) -> int {
    if reflects(pos + vel, limit) {
        -vel
    } else {
        vel
    }
}

/// One axis of a reachable ball state against `[0, limit]`: the velocity
/// magnitude is at most `VEL_LIMIT`, and the position sits inside the
/// bounds or in the overshoot band a bounded step can reach, with the
/// velocity oriented as reflection leaves it there.
pub open spec fn axis_ok(pos: int, vel: int, limit: int) -> bool {
    &&& -VEL_LIMIT <= vel <= VEL_LIMIT
    &&& {
        ||| 0 < pos < limit
        ||| (-VEL_LIMIT < pos <= 0 && vel >= 0)
        ||| (pos <= 0 && vel <= 0 && -VEL_LIMIT < pos + vel)
        ||| (limit <= pos < limit + VEL_LIMIT && vel <= 0)
        ||| (pos >= limit && vel >= 0 && pos + vel < limit + VEL_LIMIT)
    }
}

/// Reflection preserves the magnitude of each velocity component: only
/// its sign may flip.
pub proof fn lemma_speed_preserved(pos: int, vel: int, limit: int)
    ensures
        vstd::math::abs(stepped_vel(pos, vel, limit)) == vstd::math::abs(vel),
{
}

/// A step that lands strictly inside the bounds leaves the velocity
/// component unchanged.
pub proof fn lemma_interior_step_keeps_velocity(pos: int, vel: int, limit: int)
    requires
        0 < pos + vel < limit,
    ensures
        stepped_vel(pos, vel, limit) == vel,
{
}

/// One step keeps an axis within its reachable envelope.
pub proof fn lemma_axis_ok_preserved(pos: int, vel: int, limit: int)
    requires
        axis_ok(pos, vel, limit),
        VEL_LIMIT < limit,
    ensures
        axis_ok(pos + vel, stepped_vel(pos, vel, limit), limit),
{
}

impl Ball {
    /// One Euler step against the bounds `[0, w] x [0, h]`: the velocity
    /// is added to the position, then each axis whose new coordinate lies
    /// on or past a bound has its velocity negated.
    pub fn advance(&mut self, w: i64, h: i64)
        requires
            i64::MIN <= old(self).x + old(self).dx <= i64::MAX,
            i64::MIN <= old(self).y + old(self).dy <= i64::MAX,
            old(self).dx != i64::MIN,
            old(self).dy != i64::MIN,
        ensures
            final(self).x == old(self).x + old(self).dx,
            final(self).y == old(self).y + old(self).dy,
            final(self).dx == stepped_vel(old(self).x as int, old(self).dx as int, w as int),
            final(self).dy == stepped_vel(old(self).y as int, old(self).dy as int, h as int),
    {
        self.x = self.x + self.dx;
        self.y = self.y + self.dy;
        if self.x <= 0 || self.x >= w {
            self.dx = -self.dx;
        }
        if self.y <= 0 || self.y >= h {
            self.dy = -self.dy;
        }
    }
}

} // verus!
