//! The ball of the authoritative simulation: it advances by its
//! velocity once per tick, reflects off the top and bottom of the
//! field, reports when it crosses a goal line, and keeps its speed
//! inside a configured band.
//!
//! Positions and velocities are integer milli-pixels (per tick); every
//! step has an exact specification.

use vstd::prelude::*;
use crate::configuration::{Configuration, COORD_LIMIT, SPEED_LIMIT};

verus! {

/// Absolute value over the mathematical integers.
pub open spec fn iabs(x: int) -> int {
    if x < 0 {
        -x
    } else {
        x
    }
}

/// Ball speed measure: the larger of the two component magnitudes.
/// The configured speed band is stated over this measure.
pub open spec fn cheb_speed(v: (i32, i32)) -> int {
    if iabs(v.0 as int) >= iabs(v.1 as int) {
        iabs(v.0 as int)
    } else {
        iabs(v.1 as int)
    }
}

/// One component limited to the range `[-m, m]`.
pub open spec fn clamp_comp(x: int, m: int) -> int {
    if x > m {
        m
    } else if x < -m {
        -m
    } else {
        x
    }
}

/// The velocity after limiting its speed to the band `[min_speed,
/// max_speed]`: a too-fast ball has each component cut to the maximum,
/// a too-slow ball has its dominant component raised to the minimum,
/// and a ball inside the band is untouched.
pub open spec fn spec_clamped_velocity(v: (i32, i32), max_speed: int, min_speed: int) -> (i32, i32) {
    let s = cheb_speed(v);
    if s > max_speed {
        (clamp_comp(v.0 as int, max_speed) as i32, clamp_comp(v.1 as int, max_speed) as i32)
    } else if s < min_speed {
        if iabs(v.0 as int) >= iabs(v.1 as int) {
            ((if v.0 >= 0 {
                min_speed
            } else {
                -min_speed
            }) as i32, v.1)
        } else {
            (v.0, (if v.1 >= 0 {
                min_speed
            } else {
                -min_speed
            }) as i32)
        }
    } else {
        v
    }
}

pub struct BallAbstract {
    pub initial_position: (i32, i32),
    pub position: (i32, i32),
    pub radius: i32,
    pub initial_velocity: (i32, i32),
    pub velocity_vec: (i32, i32),
    /// Field rectangle as (left, top, right, bottom).
    pub bounding_area: (i32, i32, i32, i32),
}

impl BallAbstract {
    /// Everything one tick of movement needs: the field is inside the
    /// coordinate range, the vertical interior is wide enough that a
    /// reflection always lands back inside it, velocities are bounded,
    /// and the positions sit where the mover may have left them.
    pub open spec fn wf(self) -> bool {
        &&& 0 <= self.bounding_area.0 <= self.bounding_area.2 <= COORD_LIMIT
        &&& 0 <= self.bounding_area.1 <= self.bounding_area.3 <= COORD_LIMIT
        &&& 0 <= self.radius
        &&& self.bounding_area.1 + self.radius + SPEED_LIMIT <= self.bounding_area.3 - self.radius
            - SPEED_LIMIT
        &&& -SPEED_LIMIT <= self.velocity_vec.0 <= SPEED_LIMIT
        &&& -SPEED_LIMIT <= self.velocity_vec.1 <= SPEED_LIMIT
        &&& -SPEED_LIMIT <= self.initial_velocity.0 <= SPEED_LIMIT
        &&& -SPEED_LIMIT <= self.initial_velocity.1 <= SPEED_LIMIT
        &&& self.bounding_area.0 - SPEED_LIMIT <= self.position.0 <= self.bounding_area.2
            + SPEED_LIMIT
        &&& self.bounding_area.1 + self.radius <= self.position.1 <= self.bounding_area.3
            - self.radius
        &&& self.bounding_area.0 <= self.initial_position.0 <= self.bounding_area.2
        &&& self.bounding_area.1 + self.radius <= self.initial_position.1 <= self.bounding_area.3
            - self.radius
    }

    /// The ball after one tick of movement: both coordinates advance by
    /// the velocity, and a crossing of the top or bottom margin is
    /// mirrored back inside with the vertical velocity negated.
    pub open spec fn spec_moved(self) -> BallAbstract {
        let t = self.bounding_area.1 + self.radius;
        let b = self.bounding_area.3 - self.radius;
        let nx = self.position.0 + self.velocity_vec.0;
        let ny = self.position.1 + self.velocity_vec.1;
        let y2 = if ny < t {
            2 * t - ny
        } else if ny > b {
            2 * b - ny
        } else {
            ny
        };
        let vy2 = if ny < t || ny > b {
            -(self.velocity_vec.1 as int)
        } else {
            self.velocity_vec.1 as int
        };
        BallAbstract {
            initial_position: self.initial_position,
            position: (nx as i32, y2 as i32),
            radius: self.radius,
            initial_velocity: self.initial_velocity,
            velocity_vec: (self.velocity_vec.0, vy2 as i32),
            bounding_area: self.bounding_area,
        }
    }

    /// Goal classification of one tick of movement: `Some(true)` when
    /// the ball crosses the left goal line, `Some(false)` when it
    /// crosses the right one, `None` when it stays on the field.
    pub open spec fn spec_goal(self) -> Option<bool> {
        let nx = self.position.0 + self.velocity_vec.0;
        if nx < self.bounding_area.0 {
            Some(true)
        } else if nx > self.bounding_area.2 {
            Some(false)
        } else {
            None
        }
    }

    /// The ball back at its starting position and velocity.
    pub open spec fn spec_reset(self) -> BallAbstract {
        BallAbstract {
            initial_position: self.initial_position,
            position: self.initial_position,
            radius: self.radius,
            initial_velocity: self.initial_velocity,
            velocity_vec: self.initial_velocity,
            bounding_area: self.bounding_area,
        }
    }

    pub fn new(x: i32, y: i32, radius: i32, initial_velocity: (i32, i32), bounding_area: (
        i32,
        i32,
        i32,
        i32,
    )) -> (r: BallAbstract)
        requires
            0 <= bounding_area.0 <= bounding_area.2 <= COORD_LIMIT,
            0 <= bounding_area.1 <= bounding_area.3 <= COORD_LIMIT,
            0 <= radius,
            bounding_area.1 + radius + SPEED_LIMIT <= bounding_area.3 - radius - SPEED_LIMIT,
            -SPEED_LIMIT <= initial_velocity.0 <= SPEED_LIMIT,
            -SPEED_LIMIT <= initial_velocity.1 <= SPEED_LIMIT,
            bounding_area.0 <= x <= bounding_area.2,
            bounding_area.1 + radius <= y <= bounding_area.3 - radius,
        ensures
            r == (BallAbstract {
                initial_position: (x, y),
                position: (x, y),
                radius,
                initial_velocity,
                velocity_vec: initial_velocity,
                bounding_area,
            }),
            r.wf(),
    {
        BallAbstract {
            initial_position: (x, y),
            position: (x, y),
            radius,
            initial_velocity,
            velocity_vec: initial_velocity,
            bounding_area,
        }
    }

    pub fn reset(&mut self)
        requires
            old(self).wf(),
        ensures
            *final(self) == old(self).spec_reset(),
            final(self).wf(),
    {
        self.position = self.initial_position;
        self.velocity_vec = self.initial_velocity;
    }

    pub fn get_position(&self) -> (r: (i32, i32))
        ensures
            r == self.position,
    {
        self.position
    }

    pub fn get_radius(&self) -> (r: i32)
        ensures
            r == self.radius,
    {
        self.radius
    }

    pub fn get_velocity(&self) -> (r: (i32, i32))
        ensures
            r == self.velocity_vec,
    {
        self.velocity_vec
    }

    pub fn set_velocity(&mut self, velocity: (i32, i32))
        requires
            -SPEED_LIMIT <= velocity.0 <= SPEED_LIMIT,
            -SPEED_LIMIT <= velocity.1 <= SPEED_LIMIT,
        ensures
            *final(self) == (BallAbstract { velocity_vec: velocity, ..*old(self) }),
            old(self).wf() ==> final(self).wf(),
    {
        self.velocity_vec = velocity;
    }

    pub fn set_position(&mut self, position: (i32, i32))
        requires
            old(self).bounding_area.0 - SPEED_LIMIT <= position.0 <= old(self).bounding_area.2
                + SPEED_LIMIT,
            old(self).bounding_area.1 + old(self).radius <= position.1 <= old(
                self,
            ).bounding_area.3 - old(self).radius,
        ensures
            *final(self) == (BallAbstract { position, ..*old(self) }),
            old(self).wf() ==> final(self).wf(),
    {
        self.position = position;
    }

    /// Limit the ball speed to the configured band: afterwards the
    /// speed lies in `[min_speed, max_speed]`, whatever it was before.
    pub fn clamp_velocity(&mut self, max_speed: i32, min_speed: i32)
        requires
            old(self).wf(),
            0 < min_speed <= max_speed <= SPEED_LIMIT,
        ensures
            *final(self) == (BallAbstract {
                velocity_vec: spec_clamped_velocity(
                    old(self).velocity_vec,
                    max_speed as int,
                    min_speed as int,
                ),
                ..*old(self)
            }),
            min_speed <= cheb_speed(final(self).velocity_vec) <= max_speed,
            final(self).wf(),
    {
        let (vx, vy) = self.velocity_vec;
        let ax: i32 = if vx < 0 {
            -vx
        } else {
            vx
        };
        let ay: i32 = if vy < 0 {
            -vy
        } else {
            vy
        };
        let s: i32 = if ax >= ay {
            ax
        } else {
            ay
        };
        if s > max_speed {
            let cx: i32 = if vx > max_speed {
                max_speed
            } else if vx < -max_speed {
                -max_speed
            } else {
                vx
            };
            let cy: i32 = if vy > max_speed {
                max_speed
            } else if vy < -max_speed {
                -max_speed
            } else {
                vy
            };
            self.velocity_vec = (cx, cy);
        } else if s < min_speed {
            if ax >= ay {
                self.velocity_vec = (
                    if vx >= 0 {
                        min_speed
                    } else {
                        -min_speed
                    },
                    vy,
                );
            } else {
                self.velocity_vec = (
                    vx,
                    if vy >= 0 {
                        min_speed
                    } else {
                        -min_speed
                    },
                );
            }
        }
    }

    /// One tick of ball movement with wall reflection, classifying the
    /// outcome as a goal on either side or none; on no goal the ball is
    /// still on the field.
    pub fn update_different(&mut self) -> (r: Option<bool>)
        requires
            old(self).wf(),
            old(self).bounding_area.0 <= old(self).position.0 <= old(self).bounding_area.2,
        ensures
            *final(self) == old(self).spec_moved(),
            r == old(self).spec_goal(),
            final(self).wf(),
            r is None ==> final(self).bounding_area.0 <= final(self).position.0
                <= final(self).bounding_area.2,
    {
        let t: i32 = self.bounding_area.1 + self.radius;
        let b: i32 = self.bounding_area.3 - self.radius;
        let nx: i32 = self.position.0 + self.velocity_vec.0;
        let ny: i32 = self.position.1 + self.velocity_vec.1;
        let mut y2: i32 = ny;
        let mut vy2: i32 = self.velocity_vec.1;
        if ny < t {
            y2 = 2 * t - ny;
            vy2 = -vy2;
        } else if ny > b {
            y2 = 2 * b - ny;
            vy2 = -vy2;
        }
        self.position = (nx, y2);
        self.velocity_vec = (self.velocity_vec.0, vy2);
        if nx < self.bounding_area.0 {
            Some(true)
        } else if nx > self.bounding_area.2 {
            Some(false)
        } else {
            None
        }
    }

    /// The ball a fresh match starts with, as a value.
    pub open spec fn spec_from_configuration(config: Configuration) -> BallAbstract {
        BallAbstract {
            initial_position: ((config.screen_width / 2) as i32, (config.screen_height / 2) as i32),
            position: ((config.screen_width / 2) as i32, (config.screen_height / 2) as i32),
            radius: config.ball_radius,
            initial_velocity: config.ball_initial_velocity,
            velocity_vec: config.ball_initial_velocity,
            bounding_area: (0i32, 0i32, config.screen_width, config.screen_height),
        }
    }

    /// The ball a fresh match starts with: centred on the field with
    /// the configured radius and initial velocity.
    pub fn from_configuration(config: &Configuration) -> (r: BallAbstract)
        requires
            config.wf(),
        ensures
            r == BallAbstract::spec_from_configuration(*config),
            r.wf(),
    {
        BallAbstract::new(
            config.screen_width / 2,
            config.screen_height / 2,
            config.ball_radius,
            config.ball_initial_velocity,
            (0, 0, config.screen_width, config.screen_height),
        )
    }
}

} // verus!
