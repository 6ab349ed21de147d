//! The whole simulation state and its per-frame step: advance the ball,
//! count the frame, and refresh the FPS label at the refresh boundary.

use vstd::prelude::*;

verus! {

use vstd::string::StringExecFns;
use crate::label::fps_label_spec;
use crate::motion::{axis_ok, lemma_axis_ok_preserved, stepped_vel, Ball};
use crate::motion::{SCALE, VEL_LIMIT, X_LIMIT, Y_LIMIT};
use crate::rng::random_velocity;
use crate::sampler::{next_counter, refreshes, tick, FRAMES_PER_REFRESH};

/// The label text a state starts with, shown until the first refresh.
pub open spec fn initial_label() -> Seq<char> {
    seq!['0', ' ', 'F', 'P', 'S']
}

/// The single state bundle the frame loop owns: the ball, the frame
/// counter, and the current label text.
pub struct SimState {
    pub ball: Ball,
    pub frames: u8,
    pub label: String,
}

/// Checks one axis of `axis_ok` at run time.
fn axis_ok_check(pos: i64, vel: i64, limit: i64) -> (r: bool)
    requires
        0 < limit <= 1000000,
    ensures
        r == axis_ok(pos as int, vel as int, limit as int),
{
    if !(-VEL_LIMIT <= vel && vel <= VEL_LIMIT) {
        return false;
    }
    if !(-VEL_LIMIT < pos && pos < limit + VEL_LIMIT) {
        return false;
    }
    (0 < pos && pos < limit) || (-VEL_LIMIT < pos && pos <= 0 && vel >= 0) || (pos <= 0 && vel <= 0
        && -VEL_LIMIT < pos + vel) || (limit <= pos && pos < limit + VEL_LIMIT && vel <= 0) || (pos
        >= limit && vel >= 0 && pos + vel < limit + VEL_LIMIT)
}

impl SimState {
    /// Well-formedness: the counter has not reached the refresh boundary,
    /// and each axis of the ball sits in its reachable envelope. Holds at
    /// creation and is preserved by every step.
    pub open spec fn wf(self) -> bool {
        &&& self.frames < FRAMES_PER_REFRESH
        &&& axis_ok(self.ball.x as int, self.ball.dx as int, X_LIMIT as int)
        &&& axis_ok(self.ball.y as int, self.ball.dy as int, Y_LIMIT as int)
    }

    /// A state at the fixed startup position with the given velocity,
    /// a zeroed frame counter, and the placeholder label.
    pub fn new(dx: i64, dy: i64) -> (s: SimState)
        requires
            -VEL_LIMIT <= dx <= VEL_LIMIT,
            -VEL_LIMIT <= dy <= VEL_LIMIT,
        ensures
            s.wf(),
            s.ball.x == 10 * SCALE,
            s.ball.y == 10 * SCALE,
            s.ball.dx == dx,
            s.ball.dy == dy,
            s.frames == 0,
            s.label@ == initial_label(),
    {
        let mut label = String::new();
        label.append("0 FPS");
        proof {
            reveal_strlit("0 FPS");
            assert(label@ =~= initial_label());
        }
        SimState { ball: Ball { x: 10 * SCALE, y: 10 * SCALE, dx, dy }, frames: 0, label }
    }

    /// A state as created at startup: the fixed origin offset and a
    /// velocity sampled uniformly at random, component by component.
    pub fn new_random() -> (s: SimState)
        ensures
            s.wf(),
            s.ball.x == 10 * SCALE,
            s.ball.y == 10 * SCALE,
            -VEL_LIMIT <= s.ball.dx <= VEL_LIMIT,
            -VEL_LIMIT <= s.ball.dy <= VEL_LIMIT,
            s.frames == 0,
            s.label@ == initial_label(),
    {
        let dx: i64 = random_velocity();
        let dy: i64 = random_velocity();
        SimState::new(dx, dy)
    }

    /// Runtime check of `wf`, for callers outside verified code.
    pub fn is_well_formed(&self) -> (r: bool)
        ensures
            r == self.wf(),
    {
        self.frames < FRAMES_PER_REFRESH && axis_ok_check(self.ball.x, self.ball.dx, X_LIMIT)
            && axis_ok_check(self.ball.y, self.ball.dy, Y_LIMIT)
    }

    /// One frame: the ball takes one reflected Euler step against the
    /// logical bounds, the frame counter advances, and at the refresh
    /// boundary the label is rebuilt from the measured rate, given in
    /// hundredths of a frame per second. Returns whether the label
    /// changed.
    pub fn update(&mut self, fps_hundredths: u32) -> (changed: bool)
        requires
            old(self).wf(),
        ensures
            final(self).wf(),
            final(self).ball.x == old(self).ball.x + old(self).ball.dx,
            final(self).ball.y == old(self).ball.y + old(self).ball.dy,
            final(self).ball.dx == stepped_vel(
                old(self).ball.x as int,
                old(self).ball.dx as int,
                X_LIMIT as int,
            ),
            final(self).ball.dy == stepped_vel(
                old(self).ball.y as int,
                old(self).ball.dy as int,
                Y_LIMIT as int,
            ),
            final(self).frames == next_counter(old(self).frames),
            changed == refreshes(old(self).frames),
            changed ==> final(self).label@ == fps_label_spec(fps_hundredths as nat),
            !changed ==> final(self).label@ == old(self).label@,
    {
        proof {
            lemma_axis_ok_preserved(
                self.ball.x as int,
                self.ball.dx as int,
                X_LIMIT as int,
            );
            lemma_axis_ok_preserved(
                self.ball.y as int,
                self.ball.dy as int,
                Y_LIMIT as int,
            );
        }
        self.ball.advance(X_LIMIT, Y_LIMIT);
        let (frames, label_opt) = tick(self.frames, fps_hundredths);
        self.frames = frames;
        match label_opt {
            Some(l) => {
                self.label = l;
                true
            },
            None => false,
        }
    }
}

} // verus!
