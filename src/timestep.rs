use vstd::prelude::*;

use crate::collision::{after_colliders, can_resolve, resolve_collisions, Collider, Scoreboard};
use crate::components::Body;
use crate::motion::{can_integrate, integrate_motion, moved};

verus! {

/// Fixed-timestep accumulator: elapsed wall-clock time is collected, and each
/// whole step of it becomes one tick; the remainder carries over.
pub struct FixedTimestep {
    pub step: u64,
    pub accumulated: u64,
}

impl FixedTimestep {
    /// The step is positive and less than one step is carried.
    pub open spec fn wf(self) -> bool {
        self.step > 0 && self.accumulated < self.step
    }

    /// An accumulator with nothing carried.
    pub fn new(step: u64) -> (r: FixedTimestep)
        requires
            step > 0,
        ensures
            r.wf(),
            r.step == step,
            r.accumulated == 0,
    {
        FixedTimestep { step, accumulated: 0 }
    }

    /// Adds `elapsed` time and returns how many whole steps are due.
    pub fn advance(&mut self, elapsed: u64) -> (ticks: u64)
        requires
            old(self).wf(),
            old(self).accumulated + elapsed <= u64::MAX,
        ensures
            final(self).wf(),
            final(self).step == old(self).step,
            ticks == (old(self).accumulated + elapsed) / (old(self).step as int),
            final(self).accumulated == (old(self).accumulated + elapsed) % (old(self).step as int),
            ticks * old(self).step + final(self).accumulated == old(self).accumulated + elapsed,
    {
        let total: u64 = self.accumulated + elapsed;
        let ticks: u64 = total / self.step;
        self.accumulated = total % self.step;
        proof {
            vstd::arithmetic::div_mod::lemma_fundamental_div_mod(total as int, self.step as int);
        }
        ticks
    }
}

/// One simulation tick: motion integration over `dt` milliseconds, then
/// collision resolution against the moved ball. Returns the collision signal.
pub fn tick(
    ball: &mut Body,
    colliders: &Vec<Collider>,
    scoreboard: &mut Scoreboard,
    picks: &Vec<u64>,
    dt: u32,
) -> (collided: bool)
    requires
        picks.len() == colliders.len(),
        can_integrate(*old(ball), dt),
        can_resolve(*old(ball), *old(scoreboard), colliders.len() as nat),
    ensures
        ({
            let moved_ball = Body {
                position: crate::components::Position {
                    x_position: moved(
                        old(ball).position.x_position as int,
                        old(ball).velocity.x_velocity as int,
                        dt as int,
                    ) as i64,
                    y_position: moved(
                        old(ball).position.y_position as int,
                        old(ball).velocity.y_velocity as int,
                        dt as int,
                    ) as i64,
                },
                ..*old(ball)
            };
            (*final(ball), *final(scoreboard), collided) == after_colliders(
                moved_ball,
                *old(scoreboard),
                colliders@,
                picks@,
                colliders.len() as nat,
            )
        }),
{
    integrate_motion(ball, dt);
    resolve_collisions(ball, colliders, scoreboard, picks)
}

} // verus!
