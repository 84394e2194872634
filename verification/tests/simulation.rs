use netpong::ball::BallAbstract;
use netpong::configuration::Configuration;
use netpong::multiplayer_pong::MultiplayerPong;
use netpong::paddle::{Paddle, RectangularPaddle};
use netpong::state::RoundResult;

const FIELD: (i32, i32, i32, i32) = (0, 0, 800_000, 600_000);

fn cheb(v: (i32, i32)) -> i32 {
    v.0.abs().max(v.1.abs())
}

#[test]
fn ball_starts_in_the_centre() {
    let config = Configuration::default();
    let ball = BallAbstract::from_configuration(&config);
    assert_eq!(ball.get_position(), (400_000, 300_000));
    assert_eq!(ball.get_velocity(), (6_667, 6_667));
    assert_eq!(ball.get_radius(), 15_000);
}

#[test]
fn clamp_caps_a_fast_ball_at_the_maximum() {
    let mut ball = BallAbstract::new(400_000, 300_000, 15_000, (30_000, 0), FIELD);
    ball.clamp_velocity(18_856, 4_714);
    assert_eq!(ball.get_velocity(), (18_856, 0));
}

#[test]
fn clamp_raises_a_slow_ball_to_the_minimum() {
    let mut ball = BallAbstract::new(400_000, 300_000, 15_000, (1_000, -500), FIELD);
    ball.clamp_velocity(18_856, 4_714);
    assert_eq!(ball.get_velocity(), (4_714, -500));
}

#[test]
fn clamp_keeps_a_ball_inside_the_band_unchanged() {
    let mut ball = BallAbstract::new(400_000, 300_000, 15_000, (6_667, -6_667), FIELD);
    ball.clamp_velocity(18_856, 4_714);
    assert_eq!(ball.get_velocity(), (6_667, -6_667));
}

#[test]
fn clamp_lands_in_the_band_for_arbitrary_velocities() {
    // a small linear congruential generator; the clamp must land in
    // the configured band whatever the pre-collision velocity was
    let mut seed: u64 = 0x2545_f491_4f6c_dd1d;
    for _ in 0..200 {
        seed = seed.wrapping_mul(6_364_136_223_846_793_005).wrapping_add(1_442_695_040_888_963_407);
        let vx = ((seed >> 16) % 180_001) as i32 - 90_000;
        seed = seed.wrapping_mul(6_364_136_223_846_793_005).wrapping_add(1_442_695_040_888_963_407);
        let vy = ((seed >> 16) % 180_001) as i32 - 90_000;
        let mut ball = BallAbstract::new(400_000, 300_000, 15_000, (vx, vy), FIELD);
        ball.clamp_velocity(18_856, 4_714);
        let s = cheb(ball.get_velocity());
        assert!(4_714 <= s && s <= 18_856, "speed {} out of band for ({}, {})", s, vx, vy);
    }
}

#[test]
fn ball_reflects_off_the_top_margin() {
    let mut ball = BallAbstract::new(400_000, 15_500, 15_000, (6_667, -6_667), FIELD);
    let goal = ball.update_different();
    assert_eq!(goal, None);
    // moved to 8_833, mirrored back to 15_000 + (15_000 - 8_833)
    assert_eq!(ball.get_position(), (406_667, 21_167));
    assert_eq!(ball.get_velocity(), (6_667, 6_667));
}

#[test]
fn ball_crossing_the_left_line_is_a_goal() {
    let mut ball = BallAbstract::new(1_000, 300_000, 15_000, (-6_667, 0), FIELD);
    assert_eq!(ball.update_different(), Some(true));
}

#[test]
fn ball_crossing_the_right_line_is_a_goal() {
    let mut ball = BallAbstract::new(799_500, 300_000, 15_000, (6_667, 0), FIELD);
    assert_eq!(ball.update_different(), Some(false));
}

#[test]
fn paddle_moves_and_stops_at_the_edge() {
    let shape = RectangularPaddle::new(90_000, 5_000, 105);
    let mut paddle = Paddle::new(5_000, 300_000, shape, 180_000, (0, 600_000), 6_667);
    paddle.update(true, false);
    assert_eq!(paddle.get_position(), (5_000, 293_333));
    assert_eq!(paddle.get_velocity(), -6_667);
    let shape2 = RectangularPaddle::new(90_000, 5_000, 105);
    let mut at_top = Paddle::new(5_000, 92_000, shape2, 180_000, (0, 600_000), 6_667);
    at_top.update(true, false);
    // 92_000 - 6_667 would put the paddle over the edge
    assert_eq!(at_top.get_position(), (5_000, 90_000));
}

#[test]
fn paddle_with_both_keys_or_none_stands_still() {
    let shape = RectangularPaddle::new(90_000, 5_000, 105);
    let mut paddle = Paddle::new(5_000, 300_000, shape, 180_000, (0, 600_000), 6_667);
    paddle.update(true, true);
    assert_eq!(paddle.get_position(), (5_000, 300_000));
    assert_eq!(paddle.get_velocity(), 0);
    paddle.update(false, false);
    assert_eq!(paddle.get_position(), (5_000, 300_000));
}

#[test]
fn overlapping_ball_is_deflected_by_the_impact_offset() {
    let shape = RectangularPaddle::new(90_000, 5_000, 105);
    let paddle = Paddle::new(5_000, 300_000, shape, 180_000, (0, 600_000), 6_667);
    let ball = BallAbstract::new(18_000, 310_000, 15_000, (-6_667, 0), FIELD);
    // horizontal reflection plus a share of the 10_000 offset
    assert_eq!(paddle.bouncing(&ball), Some((6_667, 1_250)));
}

#[test]
fn distant_ball_is_not_deflected() {
    let shape = RectangularPaddle::new(90_000, 5_000, 105);
    let paddle = Paddle::new(5_000, 300_000, shape, 180_000, (0, 600_000), 6_667);
    let ball = BallAbstract::new(400_000, 300_000, 15_000, (-6_667, 0), FIELD);
    assert_eq!(paddle.bouncing(&ball), None);
}

#[test]
fn goal_resets_ball_and_paddles_to_the_centre() {
    let config = Configuration::default();
    let mut game = MultiplayerPong::from_configuration(&config);
    game.ball.set_position((1_000, 200_000));
    game.ball.set_velocity((-6_667, 0));
    // move the left paddle off the centre line first
    game.left_paddle.update(true, false);
    assert_eq!(game.left_paddle.get_position(), (5_000, 293_333));
    let (result, snapshot) = game.multi_game_round((false, false), (false, false), 1);
    assert!(matches!(result, RoundResult::RightScored));
    assert_eq!(snapshot.tick, 1);
    assert_eq!((snapshot.ball.x, snapshot.ball.y), (400_000, 300_000));
    assert_eq!((snapshot.left_paddle.x, snapshot.left_paddle.y), (5_000, 300_000));
    assert_eq!((snapshot.right_paddle.x, snapshot.right_paddle.y), (795_000, 300_000));
    assert_eq!(game.ball.get_velocity(), (6_667, 6_667));
}

#[test]
fn idle_round_moves_only_the_ball() {
    let config = Configuration::default();
    let mut game = MultiplayerPong::from_configuration(&config);
    let (result, snapshot) = game.multi_game_round((false, false), (false, false), 1);
    assert!(matches!(result, RoundResult::NoGoal));
    assert_eq!((snapshot.ball.x, snapshot.ball.y), (406_667, 306_667));
    assert_eq!((snapshot.left_paddle.x, snapshot.left_paddle.y), (5_000, 300_000));
    assert_eq!((snapshot.right_paddle.x, snapshot.right_paddle.y), (795_000, 300_000));
}
