//! Match configuration: playing field geometry, paddle and ball
//! parameters, and the allowed ball speed band.
//!
//! All lengths are in milli-pixels and all speeds in milli-pixels per
//! simulation tick, so the whole simulation works on plain integers.

use vstd::prelude::*;

verus! {

/// Largest coordinate value the simulation ever works with.
pub const COORD_LIMIT: i32 = 1_000_000_000;

/// Largest speed (per component, milli-pixels per tick) the simulation
/// ever works with; the configured speed band must stay below it.
pub const SPEED_LIMIT: i32 = 100_000;

pub struct Configuration {
    pub screen_width: i32,
    pub screen_height: i32,
    pub ball_radius: i32,
    pub ball_initial_velocity: (i32, i32),
    pub paddle_width: i32,
    pub paddle_height: i32,
    pub paddle_speed: i32,
    pub paddle_to_ball_speedup: i32,
    pub min_ball_speed: i32,
    pub max_ball_speed: i32,
}

impl Configuration {
    /// Every bound the simulation needs in order to move the ball and
    /// the paddles without overflow and to keep them inside the field.
    pub open spec fn wf(self) -> bool {
        &&& 0 < self.screen_width <= COORD_LIMIT
        &&& 0 < self.screen_height <= COORD_LIMIT
        &&& 0 <= self.ball_radius
        &&& 2 * self.ball_radius + 2 * SPEED_LIMIT <= self.screen_height
        &&& -SPEED_LIMIT <= self.ball_initial_velocity.0 <= SPEED_LIMIT
        &&& -SPEED_LIMIT <= self.ball_initial_velocity.1 <= SPEED_LIMIT
        &&& 0 <= self.paddle_width <= self.screen_width
        &&& 0 < self.paddle_height <= self.screen_height
        &&& 0 <= self.paddle_speed <= SPEED_LIMIT
        &&& 0 <= self.paddle_to_ball_speedup <= 1000
        &&& 0 < self.min_ball_speed <= self.max_ball_speed
        &&& self.max_ball_speed <= SPEED_LIMIT
    }
}

impl Default for Configuration {
    /// The stock match setup: an 800 by 600 pixel field, a ball that
    /// starts in the centre moving diagonally, and paddles that cover
    /// three tenths of the field height.
    fn default() -> (r: Configuration)
        ensures
            r.wf(),
            r.screen_width == 800_000,
            r.screen_height == 600_000,
            r.ball_radius == 15_000,
            r.ball_initial_velocity == (6_667i32, 6_667i32),
            r.paddle_width == 10_000,
            r.paddle_height == 180_000,
            r.paddle_speed == 6_667,
            r.paddle_to_ball_speedup == 105,
            r.min_ball_speed == 4_714,
            r.max_ball_speed == 18_856,
    {
        Configuration {
            screen_width: 800_000,
            screen_height: 600_000,
            ball_radius: 15_000,
            ball_initial_velocity: (6_667, 6_667),
            paddle_width: 10_000,
            paddle_height: 180_000,
            paddle_speed: 6_667,
            paddle_to_ball_speedup: 105,
            min_ball_speed: 4_714,
            max_ball_speed: 18_856,
        }
    }
}

} // verus!
