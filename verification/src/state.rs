//! One tick of the authoritative match simulation: move the ball,
//! classify goals, move the paddles from the latched inputs, resolve
//! paddle deflections and keep the ball speed inside the configured
//! band.

use vstd::prelude::*;
use crate::ball::{BallAbstract, cheb_speed, spec_clamped_velocity};
use crate::configuration::SPEED_LIMIT;
use crate::paddle::Paddle;

verus! {

/// The latched key state of both players for one tick.
#[derive(Clone, Copy, Debug, PartialEq, Eq, Structural)]
pub struct Input {
    pub left_up: bool,
    pub left_down: bool,
    pub right_up: bool,
    pub right_down: bool,
}

impl Input {
    pub fn new(left_up: bool, left_down: bool, right_up: bool, right_down: bool) -> (r: Input)
        ensures
            r == (Input { left_up, left_down, right_up, right_down }),
    {
        Input { left_up, left_down, right_up, right_down }
    }
}

/// Outcome of one tick: exactly one of a left goal, a right goal, or
/// no goal.
#[derive(Clone, Copy, Debug, PartialEq, Eq, Structural)]
pub enum RoundResult {
    LeftScored,
    RightScored,
    NoGoal,
}

/// The ball velocity after deflection resolution against both paddles:
/// the left paddle's deflection wins when both overlap, and a ball
/// touching neither keeps its velocity.
pub open spec fn spec_bounced_velocity(ball: BallAbstract, paddle_left: Paddle, paddle_right: Paddle) -> (
    i32,
    i32,
) {
    if paddle_left.spec_hit(ball) {
        paddle_left.spec_bounce_velocity(ball)
    } else if paddle_right.spec_hit(ball) {
        paddle_right.spec_bounce_velocity(ball)
    } else {
        ball.velocity_vec
    }
}

/// Resolve paddle deflections, then clamp the ball speed to the band
/// `[min_speed, max_speed]`; afterwards the speed always lies in the
/// band, whatever the collision produced.
pub fn bouncing(
    ball: &mut BallAbstract,
    paddle_left: &Paddle,
    paddle_right: &Paddle,
    max_speed: i32,
    min_speed: i32,
)
    requires
        old(ball).wf(),
        paddle_left.wf(),
        paddle_right.wf(),
        0 < min_speed <= max_speed <= SPEED_LIMIT,
    ensures
        *final(ball) == (BallAbstract {
            velocity_vec: spec_clamped_velocity(
                spec_bounced_velocity(*old(ball), *paddle_left, *paddle_right),
                max_speed as int,
                min_speed as int,
            ),
            ..*old(ball)
        }),
        min_speed <= cheb_speed(final(ball).velocity_vec) <= max_speed,
        final(ball).wf(),
{
    let v1 = paddle_left.bouncing(ball);
    let v2 = paddle_right.bouncing(ball);
    if let Some(v) = v1 {
        ball.set_velocity(v);
    } else if let Some(v) = v2 {
        ball.set_velocity(v);
    }
    ball.clamp_velocity(max_speed, min_speed);
}

/// One full simulation tick.
///
/// The ball moves first: if it crossed a goal line the round ends at
/// once with the scoring side, and ball and paddles are put back to
/// their starting positions. Otherwise the paddles move by the latched
/// inputs, deflections are resolved, and the ball speed is clamped to
/// the configured band.
pub fn game_frame(
    ball: &mut BallAbstract,
    paddle_left: &mut Paddle,
    paddle_right: &mut Paddle,
    input: &Input,
    max_speed: i32,
    min_speed: i32,
) -> (r: RoundResult)
    requires
        old(ball).wf(),
        old(paddle_left).wf(),
        old(paddle_right).wf(),
        old(ball).bounding_area.0 <= old(ball).position.0 <= old(ball).bounding_area.2,
        0 < min_speed <= max_speed <= SPEED_LIMIT,
    ensures
        r == (match old(ball).spec_goal() {
            Some(true) => RoundResult::RightScored,
            Some(false) => RoundResult::LeftScored,
            None => RoundResult::NoGoal,
        }),
        old(ball).spec_goal() is Some ==> {
            &&& *final(ball) == old(ball).spec_moved().spec_reset()
            &&& *final(paddle_left) == old(paddle_left).spec_reset()
            &&& *final(paddle_right) == old(paddle_right).spec_reset()
        },
        old(ball).spec_goal() is None ==> {
            let moved = old(ball).spec_moved();
            let pl = old(paddle_left).spec_updated(input.left_up, input.left_down);
            let pr = old(paddle_right).spec_updated(input.right_up, input.right_down);
            &&& *final(paddle_left) == pl
            &&& *final(paddle_right) == pr
            &&& *final(ball) == (BallAbstract {
                velocity_vec: spec_clamped_velocity(
                    spec_bounced_velocity(moved, pl, pr),
                    max_speed as int,
                    min_speed as int,
                ),
                ..moved
            })
            &&& min_speed <= cheb_speed(final(ball).velocity_vec) <= max_speed
        },
        final(ball).wf(),
        final(paddle_left).wf(),
        final(paddle_right).wf(),
        final(ball).bounding_area.0 <= final(ball).position.0 <= final(ball).bounding_area.2,
{
    if let Some(right_scored) = ball.update_different() {
        ball.reset();
        paddle_left.reset();
        paddle_right.reset();
        if right_scored {
            return RoundResult::RightScored;
        } else {
            return RoundResult::LeftScored;
        }
    }
    paddle_left.update(input.left_up, input.left_down);
    paddle_right.update(input.right_up, input.right_down);
    bouncing(ball, paddle_left, paddle_right, max_speed, min_speed);
    RoundResult::NoGoal
}

} // verus!
