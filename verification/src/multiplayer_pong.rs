//! The complete simulation state of one match — ball, both paddles and
//! the configured ball speed band — and the one-tick round that feeds
//! a snapshot back to the transport layer.

use vstd::prelude::*;
use crate::ball::{BallAbstract, spec_clamped_velocity};
use crate::configuration::{Configuration, SPEED_LIMIT};
use crate::messages::{GameState, Tick, Vec2u};
use crate::paddle::{Paddle, paddle_from_configuration, spec_paddles_from_configuration};
use crate::state::{Input, RoundResult, game_frame, spec_bounced_velocity};

verus! {

pub struct MultiplayerPong {
    pub ball: BallAbstract,
    pub left_paddle: Paddle,
    pub right_paddle: Paddle,
    pub max_ball_speed: i32,
    pub min_ball_speed: i32,
}

impl MultiplayerPong {
    pub open spec fn wf(self) -> bool {
        &&& self.ball.wf()
        &&& self.left_paddle.wf()
        &&& self.right_paddle.wf()
        &&& self.ball.bounding_area.0 <= self.ball.position.0 <= self.ball.bounding_area.2
        &&& 0 < self.min_ball_speed <= self.max_ball_speed <= SPEED_LIMIT
    }

    /// The snapshot of this simulation state for the given tick.
    pub open spec fn spec_snapshot(self, tick: Tick) -> GameState {
        GameState {
            tick,
            ball: Vec2u { x: self.ball.position.0 as u32, y: self.ball.position.1 as u32 },
            left_paddle: Vec2u {
                x: self.left_paddle.position.0 as u32,
                y: self.left_paddle.position.1 as u32,
            },
            right_paddle: Vec2u {
                x: self.right_paddle.position.0 as u32,
                y: self.right_paddle.position.1 as u32,
            },
        }
    }

    pub fn new(
        ball: BallAbstract,
        left_paddle: Paddle,
        right_paddle: Paddle,
        max_ball_speed: i32,
        min_ball_speed: i32,
    ) -> (r: MultiplayerPong)
        ensures
            r == (MultiplayerPong { ball, left_paddle, right_paddle, max_ball_speed, min_ball_speed }),
    {
        MultiplayerPong { ball, left_paddle, right_paddle, max_ball_speed, min_ball_speed }
    }

    /// The simulation a fresh match starts with.
    pub fn from_configuration(config: &Configuration) -> (r: MultiplayerPong)
        requires
            config.wf(),
        ensures
            r.ball == BallAbstract::spec_from_configuration(*config),
            r.left_paddle == spec_paddles_from_configuration(*config).0,
            r.right_paddle == spec_paddles_from_configuration(*config).1,
            r.max_ball_speed == config.max_ball_speed,
            r.min_ball_speed == config.min_ball_speed,
            r.wf(),
    {
        let ball = BallAbstract::from_configuration(config);
        let (left_paddle, right_paddle) = paddle_from_configuration(config);
        MultiplayerPong::new(
            ball,
            left_paddle,
            right_paddle,
            config.max_ball_speed,
            config.min_ball_speed,
        )
    }

    /// One authoritative tick: latch the given inputs into the frame,
    /// advance the simulation, and produce the snapshot for tick
    /// `tick` that is broadcast to both players.
    pub fn multi_game_round(
        &mut self,
        input_left: (bool, bool),
        input_right: (bool, bool),
        tick: Tick,
    ) -> (r: (RoundResult, GameState))
        requires
            old(self).wf(),
        ensures
            final(self).wf(),
            r.0 == (match old(self).ball.spec_goal() {
                Some(true) => RoundResult::RightScored,
                Some(false) => RoundResult::LeftScored,
                None => RoundResult::NoGoal,
            }),
            old(self).ball.spec_goal() is Some ==> {
                &&& final(self).ball == old(self).ball.spec_moved().spec_reset()
                &&& final(self).left_paddle == old(self).left_paddle.spec_reset()
                &&& final(self).right_paddle == old(self).right_paddle.spec_reset()
            },
            old(self).ball.spec_goal() is None ==> {
                let moved = old(self).ball.spec_moved();
                let pl = old(self).left_paddle.spec_updated(input_left.0, input_left.1);
                let pr = old(self).right_paddle.spec_updated(input_right.0, input_right.1);
                &&& final(self).left_paddle == pl
                &&& final(self).right_paddle == pr
                &&& final(self).ball == (BallAbstract {
                    velocity_vec: spec_clamped_velocity(
                        spec_bounced_velocity(moved, pl, pr),
                        old(self).max_ball_speed as int,
                        old(self).min_ball_speed as int,
                    ),
                    ..moved
                })
                &&& old(self).min_ball_speed <= crate::ball::cheb_speed(
                    final(self).ball.velocity_vec,
                ) <= old(self).max_ball_speed
            },
            final(self).max_ball_speed == old(self).max_ball_speed,
            final(self).min_ball_speed == old(self).min_ball_speed,
            r.1 == final(self).spec_snapshot(tick),
            final(self).ball.position.0 >= 0 && final(self).ball.position.1 >= 0,
            final(self).left_paddle.position.0 >= 0 && final(self).left_paddle.position.1 >= 0,
            final(self).right_paddle.position.0 >= 0 && final(self).right_paddle.position.1 >= 0,
    {
        let input = Input::new(input_left.0, input_left.1, input_right.0, input_right.1);
        let rr = game_frame(
            &mut self.ball,
            &mut self.left_paddle,
            &mut self.right_paddle,
            &input,
            self.max_ball_speed,
            self.min_ball_speed,
        );
        let ball_pos = self.ball.get_position();
        let left_pos = self.left_paddle.get_position();
        let right_pos = self.right_paddle.get_position();
        let game_state = GameState::new(
            tick,
            Vec2u { x: ball_pos.0 as u32, y: ball_pos.1 as u32 },
            Vec2u { x: left_pos.0 as u32, y: left_pos.1 as u32 },
            Vec2u { x: right_pos.0 as u32, y: right_pos.1 as u32 },
        );
        (rr, game_state)
    }
}

} // verus!
