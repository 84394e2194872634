//! Paddles of the authoritative simulation: they move up or down by
//! their speed per tick while staying inside the field, and they
//! deflect the ball when it overlaps their rectangle.
//!
//! The deflected velocity is a function of the paddle's own velocity
//! and of where on the paddle the ball hit.

use vstd::prelude::*;
use crate::ball::BallAbstract;
use crate::ball::iabs;
use crate::configuration::{Configuration, COORD_LIMIT, SPEED_LIMIT};

verus! {

/// `a` scaled by `num / den`, rounding the magnitude down; the sign of
/// `a` is kept.
pub open spec fn spec_scaled(a: int, num: int, den: int) -> int
    recommends
        den > 0,
        num >= 0,
{
    if a >= 0 {
        (a * num) / den
    } else {
        -(((-a) * num) / den)
    }
}

/// `x` saturated to the range `[-m, m]`.
pub open spec fn spec_saturated(x: int, m: int) -> int {
    if x > m {
        m
    } else if x < -m {
        -m
    } else {
        x
    }
}

/// The rectangular shape of a paddle and how strongly it passes its
/// own movement on to a deflected ball (in hundredths).
pub struct RectangularPaddle {
    pub half_height: i32,
    pub half_width: i32,
    pub paddle_to_ball_speedup: i32,
}

impl RectangularPaddle {
    pub open spec fn wf(self) -> bool {
        &&& 0 <= self.half_height <= COORD_LIMIT
        &&& 0 <= self.half_width <= COORD_LIMIT
        &&& 0 <= self.paddle_to_ball_speedup <= 1000
    }

    pub fn new(half_height: i32, half_width: i32, paddle_to_ball_speedup: i32) -> (r:
        RectangularPaddle)
        ensures
            r == (RectangularPaddle { half_height, half_width, paddle_to_ball_speedup }),
    {
        RectangularPaddle { half_height, half_width, paddle_to_ball_speedup }
    }

    pub fn from_configuration(config: &Configuration) -> (r: RectangularPaddle)
        requires
            config.wf(),
        ensures
            r == (RectangularPaddle {
                half_height: (config.paddle_height / 2) as i32,
                half_width: (config.paddle_width / 2) as i32,
                paddle_to_ball_speedup: config.paddle_to_ball_speedup,
            }),
            r.wf(),
    {
        RectangularPaddle::new(
            config.paddle_height / 2,
            config.paddle_width / 2,
            config.paddle_to_ball_speedup,
        )
    }
}

pub struct Paddle {
    pub position: (i32, i32),
    /// Half of the paddle height, used to keep it inside the field.
    pub vertical_range: i32,
    /// Vertical field range as (top, bottom); the top is the field edge.
    pub bounding_area: (i32, i32),
    pub speed: i32,
    pub velocity: i32,
    pub shape: RectangularPaddle,
}

impl Paddle {
    pub open spec fn wf(self) -> bool {
        &&& self.bounding_area.0 == 0
        &&& 0 <= self.vertical_range
        &&& 2 * self.vertical_range <= self.bounding_area.1 <= COORD_LIMIT
        &&& 0 <= self.speed <= SPEED_LIMIT
        &&& -self.speed <= self.velocity <= self.speed
        &&& self.vertical_range <= self.position.1 <= self.bounding_area.1 - self.vertical_range
        &&& 0 <= self.position.0 <= COORD_LIMIT
        &&& self.shape.wf()
    }

    /// The paddle after one tick of movement: its velocity is set from
    /// the latched keys, its height advances by it and is clamped so
    /// the paddle stays fully on the field.
    pub open spec fn spec_updated(self, up: bool, down: bool) -> Paddle {
        let vel = if up && !down {
            -(self.speed as int)
        } else if down && !up {
            self.speed as int
        } else {
            0
        };
        let ny = self.position.1 + vel;
        let cy = if ny - self.vertical_range < self.bounding_area.0 {
            self.bounding_area.0 + self.vertical_range
        } else if ny + self.vertical_range > self.bounding_area.1 {
            self.bounding_area.1 - self.vertical_range
        } else {
            ny
        };
        Paddle {
            position: (self.position.0, cy as i32),
            vertical_range: self.vertical_range,
            bounding_area: self.bounding_area,
            speed: self.speed,
            velocity: vel as i32,
            shape: self.shape,
        }
    }

    /// The paddle back on the centre line, keeping its velocity.
    pub open spec fn spec_reset(self) -> Paddle {
        Paddle {
            position: (self.position.0, (self.bounding_area.1 / 2) as i32),
            vertical_range: self.vertical_range,
            bounding_area: self.bounding_area,
            speed: self.speed,
            velocity: self.velocity,
            shape: self.shape,
        }
    }

    /// Whether the ball overlaps this paddle's rectangle.
    pub open spec fn spec_hit(self, ball: BallAbstract) -> bool {
        &&& iabs(ball.position.0 - self.position.0) < ball.radius + self.shape.half_width
        &&& iabs(ball.position.1 - self.position.1) < self.shape.half_height
    }

    /// The ball velocity a hit produces: the horizontal component is
    /// reflected; the vertical one picks up the paddle's velocity
    /// (scaled by the configured speedup) and a share of the impact
    /// offset, saturated so it stays representable.
    pub open spec fn spec_bounce_velocity(self, ball: BallAbstract) -> (i32, i32) {
        let y_hit = ball.position.1 - self.position.1;
        let vy = ball.velocity_vec.1 + spec_scaled(
            self.velocity as int,
            self.shape.paddle_to_ball_speedup as int,
            100,
        ) + spec_scaled(y_hit, 1, 8);
        ((-(ball.velocity_vec.0 as int)) as i32, spec_saturated(vy, SPEED_LIMIT as int) as i32)
    }

    pub fn new(x: i32, y: i32, paddle_like: RectangularPaddle, height: i32, bounding_area: (
        i32,
        i32,
    ), speed: i32) -> (r: Paddle)
        requires
            0 <= height,
            bounding_area.0 == 0,
            height <= bounding_area.1 <= COORD_LIMIT,
            0 <= speed <= SPEED_LIMIT,
            height / 2 <= y <= bounding_area.1 - height / 2,
            0 <= x <= COORD_LIMIT,
            paddle_like.wf(),
        ensures
            r == (Paddle {
                position: (x, y),
                vertical_range: (height / 2) as i32,
                bounding_area,
                speed,
                velocity: 0i32,
                shape: paddle_like,
            }),
            r.wf(),
    {
        Paddle {
            position: (x, y),
            vertical_range: height / 2,
            bounding_area,
            speed,
            velocity: 0,
            shape: paddle_like,
        }
    }

    /// Deflection test against the current ball: the deflected
    /// velocity when the ball overlaps this paddle, nothing otherwise.
    pub fn bouncing(&self, ball: &BallAbstract) -> (r: Option<(i32, i32)>)
        requires
            self.wf(),
            ball.wf(),
        ensures
            r == if self.spec_hit(*ball) {
                Some(self.spec_bounce_velocity(*ball))
            } else {
                Option::<(i32, i32)>::None
            },
            r matches Some(v) ==> -SPEED_LIMIT <= v.0 <= SPEED_LIMIT && -SPEED_LIMIT <= v.1
                <= SPEED_LIMIT,
    {
        let dx: i32 = ball.position.0 - self.position.0;
        let adx: i32 = if dx < 0 {
            -dx
        } else {
            dx
        };
        let y_hit: i32 = ball.position.1 - self.position.1;
        let ady: i32 = if y_hit < 0 {
            -y_hit
        } else {
            y_hit
        };
        if adx < ball.radius + self.shape.half_width && ady < self.shape.half_height {
            proof {
                assert(self.velocity * self.shape.paddle_to_ball_speedup
                    <= 100_000_000 && self.velocity * self.shape.paddle_to_ball_speedup
                    >= -100_000_000 && (-self.velocity) * self.shape.paddle_to_ball_speedup
                    <= 100_000_000 && (-self.velocity) * self.shape.paddle_to_ball_speedup
                    >= -100_000_000) by (nonlinear_arith)
                    requires
                        -100_000 <= self.velocity <= 100_000,
                        0 <= self.shape.paddle_to_ball_speedup <= 1000,
                ;
            }
            let transfer: i32 = if self.velocity >= 0 {
                (self.velocity * self.shape.paddle_to_ball_speedup) / 100
            } else {
                -(((-self.velocity) * self.shape.paddle_to_ball_speedup) / 100)
            };
            let offset: i32 = if y_hit >= 0 {
                y_hit / 8
            } else {
                -((-y_hit) / 8)
            };
            let vy: i32 = ball.velocity_vec.1 + transfer + offset;
            let vy_sat: i32 = if vy > SPEED_LIMIT {
                SPEED_LIMIT
            } else if vy < -SPEED_LIMIT {
                -SPEED_LIMIT
            } else {
                vy
            };
            Some((-ball.velocity_vec.0, vy_sat))
        } else {
            None
        }
    }

    pub fn set_position(&mut self, position: (i32, i32))
        requires
            0 <= position.0 <= COORD_LIMIT,
            old(self).vertical_range <= position.1 <= old(self).bounding_area.1 - old(
                self,
            ).vertical_range,
        ensures
            *final(self) == (Paddle { position, ..*old(self) }),
            old(self).wf() ==> final(self).wf(),
    {
        self.position = position;
    }

    pub fn get_position(&self) -> (r: (i32, i32))
        ensures
            r == self.position,
    {
        self.position
    }

    pub fn get_velocity(&self) -> (r: i32)
        ensures
            r == self.velocity,
    {
        self.velocity
    }

    pub fn reset(&mut self)
        requires
            old(self).wf(),
        ensures
            *final(self) == old(self).spec_reset(),
            final(self).wf(),
    {
        let mid: i32 = self.bounding_area.1 / 2;
        self.position = (self.position.0, mid);
    }

    /// One tick of paddle movement from the latched key state.
    pub fn update(&mut self, up: bool, down: bool)
        requires
            old(self).wf(),
        ensures
            *final(self) == old(self).spec_updated(up, down),
            final(self).wf(),
    {
        let mut velocity: i32 = 0;
        if up {
            velocity = velocity - self.speed;
        }
        if down {
            velocity = velocity + self.speed;
        }
        self.velocity = velocity;
        let mut ny: i32 = self.position.1 + velocity;
        if ny - self.vertical_range < self.bounding_area.0 {
            ny = self.bounding_area.0 + self.vertical_range;
        } else if ny + self.vertical_range > self.bounding_area.1 {
            ny = self.bounding_area.1 - self.vertical_range;
        }
        self.position = (self.position.0, ny);
    }
}

/// The left and right paddles a fresh match starts with, as values.
pub open spec fn spec_paddles_from_configuration(config: Configuration) -> (Paddle, Paddle) {
    let shape = RectangularPaddle {
        half_height: (config.paddle_height / 2) as i32,
        half_width: (config.paddle_width / 2) as i32,
        paddle_to_ball_speedup: config.paddle_to_ball_speedup,
    };
    (
        Paddle {
            position: ((config.paddle_width / 2) as i32, (config.screen_height / 2) as i32),
            vertical_range: (config.paddle_height / 2) as i32,
            bounding_area: (0i32, config.screen_height),
            speed: config.paddle_speed,
            velocity: 0i32,
            shape,
        },
        Paddle {
            position: (
                (config.screen_width - config.paddle_width / 2) as i32,
                (config.screen_height / 2) as i32,
            ),
            vertical_range: (config.paddle_height / 2) as i32,
            bounding_area: (0i32, config.screen_height),
            speed: config.paddle_speed,
            velocity: 0i32,
            shape,
        },
    )
}

/// The left and right paddles a fresh match starts with: centred
/// vertically, one on each goal edge.
pub fn paddle_from_configuration(config: &Configuration) -> (r: (Paddle, Paddle))
    requires
        config.wf(),
    ensures
        r == spec_paddles_from_configuration(*config),
        r.0.wf(),
        r.1.wf(),
{
    let left = Paddle::new(
        config.paddle_width / 2,
        config.screen_height / 2,
        RectangularPaddle::from_configuration(config),
        config.paddle_height,
        (0, config.screen_height),
        config.paddle_speed,
    );
    let right = Paddle::new(
        config.screen_width - config.paddle_width / 2,
        config.screen_height / 2,
        RectangularPaddle::from_configuration(config),
        config.paddle_height,
        (0, config.screen_height),
        config.paddle_speed,
    );
    (left, right)
}

} // verus!
