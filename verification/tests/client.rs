use netpong::configuration::Configuration;
use netpong::messages::{Direction, GameState, Message, PlayerMove, Side, Vec2u};
use netpong::player_state::{classify_join_reply, JoinOutcome, PlayerState};

fn snapshot(tick: u32, ball_x: u32) -> GameState {
    GameState {
        tick,
        ball: Vec2u { x: ball_x, y: 300_000 },
        left_paddle: Vec2u { x: 5_000, y: 300_000 },
        right_paddle: Vec2u { x: 795_000, y: 300_000 },
    }
}

#[test]
fn join_replies_are_classified() {
    assert_eq!(
        classify_join_reply(&Message::Accepted(Side::Right, 1)),
        JoinOutcome::Joined(Side::Right, 1)
    );
    assert_eq!(classify_join_reply(&Message::Taken), JoinOutcome::GameFull);
    assert_eq!(classify_join_reply(&Message::Ready), JoinOutcome::KeepWaiting);
}

#[test]
fn stale_snapshots_leave_the_visible_state_unchanged() {
    let config = Configuration::default();
    let mut client = PlayerState::new(&config, Side::Left, 0);
    client.apply_server_message(Message::State(snapshot(5, 420_000)));
    assert_eq!(client.game_state, snapshot(5, 420_000));
    // older, duplicated and equal-tick snapshots must all be ignored
    client.apply_server_message(Message::State(snapshot(3, 111_111)));
    assert_eq!(client.game_state, snapshot(5, 420_000));
    client.apply_server_message(Message::State(snapshot(5, 222_222)));
    assert_eq!(client.game_state, snapshot(5, 420_000));
    client.apply_server_message(Message::State(snapshot(6, 430_000)));
    assert_eq!(client.game_state, snapshot(6, 430_000));
}

#[test]
fn scores_overwrite_and_session_end_finishes() {
    let config = Configuration::default();
    let mut client = PlayerState::new(&config, Side::Left, 0);
    assert!(!client.finished);
    client.apply_server_message(Message::Score(2, 3));
    assert_eq!((client.left_score, client.right_score), (2, 3));
    client.apply_server_message(Message::Ready);
    assert_eq!((client.left_score, client.right_score), (2, 3));
    client.apply_server_message(Message::EndingGame(1));
    assert!(client.finished);
}

#[test]
fn client_starts_from_the_configured_field() {
    let config = Configuration::default();
    let client = PlayerState::new(&config, Side::Right, 1);
    assert_eq!(client.get_player_id(), 1);
    assert_eq!(client.game_state.tick, 0);
    assert_eq!((client.game_state.ball.x, client.game_state.ball.y), (400_000, 300_000));
}

#[test]
fn a_press_goes_out_once_with_a_fresh_tick() {
    let config = Configuration::default();
    let mut client = PlayerState::new(&config, Side::Left, 0);
    let sent = client.key_down_event(Direction::Up(true));
    assert_eq!(
        sent,
        vec![Message::Move(PlayerMove { player_id: 0, tick: 0, dir: Direction::Up(true) })]
    );
    assert_eq!(client.tick, 1);
    let sent2 = client.key_down_event(Direction::Down(true));
    assert_eq!(
        sent2,
        vec![Message::Move(PlayerMove { player_id: 0, tick: 1, dir: Direction::Down(true) })]
    );
    assert_eq!(client.tick, 2);
}

#[test]
fn a_release_goes_out_twice() {
    let config = Configuration::default();
    let mut client = PlayerState::new(&config, Side::Left, 0);
    let sent = client.key_up_event(Direction::Up(false));
    let expected = Message::Move(PlayerMove { player_id: 0, tick: 0, dir: Direction::Up(false) });
    assert_eq!(sent, vec![expected, expected]);
    assert_eq!(client.tick, 2);
}

#[test]
fn quitting_asks_for_the_session_end_twice() {
    let config = Configuration::default();
    let client = PlayerState::new(&config, Side::Left, 4);
    assert_eq!(
        client.quit_messages(),
        vec![Message::EndingGame(4), Message::EndingGame(4)]
    );
}
