use netpong::configuration::Configuration;
use netpong::match_loop::{MatchPhase, MatchWorker, Outbound, REDUNDANT_SENDS};
use netpong::messages::{Direction, Message, PlayerMove, Side};
use netpong::player_state::PlayerState;
use netpong::server::{get_game_id, PlayerInput, Players, ServerAction, server_step};

fn mv(player_id: u32, tick: u32, dir: Direction) -> Message {
    Message::Move(PlayerMove { player_id, tick, dir })
}

#[test]
fn game_ids_pair_players_two_at_a_time() {
    assert_eq!(get_game_id(0), 0);
    assert_eq!(get_game_id(1), 0);
    assert_eq!(get_game_id(2), 1);
    assert_eq!(get_game_id(3), 1);
}

#[test]
fn latched_input_takes_only_newer_ticks() {
    let mut input = PlayerInput::default();
    input.update(PlayerMove { player_id: 0, tick: 5, dir: Direction::Up(true) });
    assert!(input.up && !input.down && input.tick == 5);
    input.update(PlayerMove { player_id: 0, tick: 3, dir: Direction::Down(true) });
    assert!(input.up && !input.down && input.tick == 5);
    input.update(PlayerMove { player_id: 0, tick: 6, dir: Direction::Up(false) });
    assert!(!input.up && !input.down && input.tick == 6);
}

#[test]
fn players_assigns_dense_ids_and_pairs() {
    let mut players: Players<u32> = Players::new();
    assert_eq!(players.num_players(), 0);
    assert_eq!(players.is_ready(), None);
    assert_eq!(players.add_player(1001), 0);
    assert_eq!(players.is_ready(), None);
    assert_eq!(players.add_player(1002), 1);
    assert_eq!(players.is_ready(), Some((0, 1)));
    assert_eq!(players.get_player_addr(0), Some(1001));
    assert_eq!(players.get_player_addr(1), Some(1002));
    assert_eq!(players.get_player_addr(2), None);
    assert!(players.knows_addr(1001));
    assert!(!players.knows_addr(1003));
}

#[test]
fn registry_holds_channels_until_the_match_ends() {
    let mut players: Players<u32> = Players::new();
    players.add_game(0, 7);
    assert_eq!(players.game_channel(0).copied(), Some(7));
    assert_eq!(players.game_channel(1).copied(), None);
    assert_eq!(players.remove_game(0), Some(7));
    assert!(players.game_channel(0).is_none());
    assert_eq!(players.remove_game(0), None);
}

#[test]
fn joins_are_paired_in_arrival_order() {
    // scenario: two clients join; the first becomes the left player
    // with id 0, the second the right player with id 1, and the pair
    // starts a match
    let mut players: Players<u32> = Players::new();
    let first = server_step(&mut players, Message::Join, 1001);
    assert_eq!(first, vec![ServerAction::Reply(1001, Message::Accepted(Side::Left, 0))]);
    let second = server_step(&mut players, Message::Join, 1002);
    assert_eq!(
        second,
        vec![
            ServerAction::Reply(1002, Message::Accepted(Side::Right, 1)),
            ServerAction::StartGame {
                game_id: 0,
                left_id: 0,
                right_id: 1,
                left_addr: 1001,
                right_addr: 1002,
            },
        ]
    );
}

#[test]
fn start_announces_ready_at_least_twice_to_each_player() {
    let config = Configuration::default();
    let mut worker = MatchWorker::new(0, 1, &config);
    let out = worker.start();
    assert_eq!(
        out,
        vec![
            Outbound { to: Side::Left, msg: Message::Ready },
            Outbound { to: Side::Left, msg: Message::Ready },
            Outbound { to: Side::Right, msg: Message::Ready },
            Outbound { to: Side::Right, msg: Message::Ready },
        ]
    );
    assert_eq!(out.iter().filter(|o| o.to == Side::Left).count(), REDUNDANT_SENDS);
    assert_eq!(out.iter().filter(|o| o.to == Side::Right).count(), REDUNDANT_SENDS);
}

#[test]
fn known_addresses_and_unknown_messages_are_rejected() {
    let mut players: Players<u32> = Players::new();
    let _ = server_step(&mut players, Message::Join, 1001);
    let again = server_step(&mut players, Message::Join, 1001);
    assert_eq!(again, vec![ServerAction::Reply(1001, Message::Taken)]);
    let odd = server_step(&mut players, Message::Ready, 1003);
    assert_eq!(odd, vec![ServerAction::Reply(1003, Message::Taken)]);
}

#[test]
fn moves_and_session_ends_are_routed_by_player_id() {
    let mut players: Players<u32> = Players::new();
    let m = mv(3, 9, Direction::Up(true));
    let routed = server_step(&mut players, m, 1001);
    assert_eq!(routed, vec![ServerAction::RouteToGame(1, m)]);
    let ended = server_step(&mut players, Message::EndingGame(2), 1001);
    assert_eq!(
        ended,
        vec![
            ServerAction::EndGame(1),
            ServerAction::RouteToGame(1, Message::EndingGame(2)),
        ]
    );
}

#[test]
fn idle_ticks_advance_the_broadcast_tick_one_by_one() {
    // scenario: both players joined and idle; after n ticks the
    // snapshot each client received carries tick n
    let config = Configuration::default();
    let mut worker = MatchWorker::new(0, 1, &config);
    let _ = worker.start();
    let mut left_client = PlayerState::new(&config, Side::Left, 0);
    let mut right_client = PlayerState::new(&config, Side::Right, 1);
    for expected_tick in 1..=3u32 {
        let out = worker.tick_once(&Vec::new());
        assert_eq!(out.len(), 2);
        for (side, o) in [Side::Left, Side::Right].iter().zip(out.iter()) {
            assert_eq!(o.to, *side);
            match o.msg {
                Message::State(gs) => assert_eq!(gs.tick, expected_tick),
                _ => panic!("expected a state broadcast"),
            }
        }
        left_client.apply_server_message(out[0].msg);
        right_client.apply_server_message(out[1].msg);
    }
    assert_eq!(worker.tick, 3);
    assert_eq!(left_client.game_state.tick, 3);
    assert_eq!(right_client.game_state.tick, 3);
}

#[test]
fn newest_tick_wins_within_one_drain() {
    // scenario: the drain holds a tick-5 press of up and a tick-3
    // press of down; the latched input reflects tick 5's up
    let config = Configuration::default();
    let mut worker = MatchWorker::new(0, 1, &config);
    let _ = worker.start();
    let batch = vec![
        mv(0, 5, Direction::Up(true)),
        mv(0, 3, Direction::Down(true)),
    ];
    let _ = worker.tick_once(&batch);
    assert_eq!(worker.left_last_move.tick, 5);
    assert!(worker.left_last_move.up);
    assert!(!worker.left_last_move.down);
}

#[test]
fn reordered_drain_latches_the_same_direction() {
    let config = Configuration::default();
    let mut worker = MatchWorker::new(0, 1, &config);
    let _ = worker.start();
    let batch = vec![
        mv(0, 3, Direction::Up(true)),
        mv(0, 5, Direction::Up(false)),
    ];
    let _ = worker.tick_once(&batch);
    let mut worker2 = MatchWorker::new(0, 1, &config);
    let _ = worker2.start();
    let batch2 = vec![
        mv(0, 5, Direction::Up(false)),
        mv(0, 3, Direction::Up(true)),
    ];
    let _ = worker2.tick_once(&batch2);
    assert_eq!(worker.left_last_move.tick, 5);
    assert_eq!(worker2.left_last_move.tick, 5);
    assert!(!worker.left_last_move.up);
    assert!(!worker2.left_last_move.up);
}

#[test]
fn a_goal_raises_exactly_one_score_and_announces_it() {
    let config = Configuration::default();
    let mut worker = MatchWorker::new(0, 1, &config);
    let _ = worker.start();
    worker.game.ball.set_position((1_000, 200_000));
    worker.game.ball.set_velocity((-6_667, 0));
    let out = worker.tick_once(&Vec::new());
    assert_eq!(worker.score, (0, 1));
    assert_eq!(out.len(), 4);
    assert_eq!(out[2], Outbound { to: Side::Left, msg: Message::Score(0, 1) });
    assert_eq!(out[3], Outbound { to: Side::Right, msg: Message::Score(0, 1) });
    match out[0].msg {
        Message::State(gs) => {
            assert_eq!((gs.ball.x, gs.ball.y), (400_000, 300_000));
        },
        _ => panic!("expected a state broadcast"),
    }
}

#[test]
fn session_end_is_announced_and_the_registry_entry_removed() {
    // scenario: a session-end request for player 0 reaches the match;
    // both clients get the announcement twice and routing to the
    // match becomes impossible
    let mut players: Players<u32> = Players::new();
    let _ = server_step(&mut players, Message::Join, 1001);
    let _ = server_step(&mut players, Message::Join, 1002);
    players.add_game(0, 7);
    let actions = server_step(&mut players, Message::EndingGame(0), 1001);
    assert_eq!(
        actions,
        vec![
            ServerAction::EndGame(0),
            ServerAction::RouteToGame(0, Message::EndingGame(0)),
        ]
    );
    let config = Configuration::default();
    let mut worker = MatchWorker::new(0, 1, &config);
    let _ = worker.start();
    let out = worker.tick_once(&vec![Message::EndingGame(0)]);
    assert_eq!(
        out,
        vec![
            Outbound { to: Side::Left, msg: Message::EndingGame(0) },
            Outbound { to: Side::Left, msg: Message::EndingGame(0) },
            Outbound { to: Side::Right, msg: Message::EndingGame(0) },
            Outbound { to: Side::Right, msg: Message::EndingGame(0) },
        ]
    );
    assert_eq!(worker.phase, MatchPhase::Terminated);
    assert_eq!(players.remove_game(0), Some(7));
    assert!(players.game_channel(0).is_none());
}

#[test]
fn messages_after_a_session_end_in_the_same_drain_are_ignored() {
    let config = Configuration::default();
    let mut worker = MatchWorker::new(0, 1, &config);
    let _ = worker.start();
    let batch = vec![
        mv(0, 4, Direction::Up(true)),
        Message::EndingGame(1),
        mv(0, 9, Direction::Down(true)),
    ];
    let _ = worker.tick_once(&batch);
    assert_eq!(worker.phase, MatchPhase::Terminated);
    // the move before the end was latched, the one after was not
    assert_eq!(worker.left_last_move.tick, 4);
    assert!(worker.left_last_move.up);
    assert!(!worker.left_last_move.down);
}
