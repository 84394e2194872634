use netpong::codec::{classify_datagram, decode, encode};
use netpong::messages::{Direction, GameState, Message, PlayerMove, ReadType, Side, Vec2u};

fn sample_state() -> GameState {
    GameState {
        tick: 7,
        ball: Vec2u { x: 400_000, y: 300_000 },
        left_paddle: Vec2u { x: 5_000, y: 300_000 },
        right_paddle: Vec2u { x: 795_000, y: 300_000 },
    }
}

#[test]
fn join_encodes_to_single_tag() {
    assert_eq!(encode(&Message::Join), b"J".to_vec());
    assert_eq!(encode(&Message::Taken), b"T".to_vec());
    assert_eq!(encode(&Message::Ready), b"Y".to_vec());
}

#[test]
fn score_encoding_is_fixed_width_hex() {
    assert_eq!(encode(&Message::Score(1, 2)), b"C0000000100000002".to_vec());
    assert_eq!(
        encode(&Message::Score(0xdead_beef, 0)),
        b"Cdeadbeef00000000".to_vec()
    );
}

#[test]
fn accepted_encoding_carries_side_and_id() {
    assert_eq!(
        encode(&Message::Accepted(Side::Right, 0x1f)),
        b"OR0000001f".to_vec()
    );
    assert_eq!(
        encode(&Message::Accepted(Side::Left, 0)),
        b"OL00000000".to_vec()
    );
}

#[test]
fn move_encoding_carries_direction_and_press() {
    let m = Message::Move(PlayerMove {
        player_id: 3,
        tick: 16,
        dir: Direction::Up(true),
    });
    assert_eq!(encode(&m), b"M0000000300000010U1".to_vec());
    let m2 = Message::Move(PlayerMove {
        player_id: 3,
        tick: 17,
        dir: Direction::Down(false),
    });
    assert_eq!(encode(&m2), b"M0000000300000011D0".to_vec());
}

#[test]
fn every_variant_round_trips() {
    let messages = vec![
        Message::Join,
        Message::Taken,
        Message::Ready,
        Message::Accepted(Side::Left, 0),
        Message::Accepted(Side::Right, u32::MAX),
        Message::Score(11, 4),
        Message::EndingGame(1),
        Message::State(sample_state()),
        Message::Move(PlayerMove {
            player_id: 0,
            tick: 5,
            dir: Direction::Up(true),
        }),
        Message::Move(PlayerMove {
            player_id: 1,
            tick: 6,
            dir: Direction::Down(false),
        }),
    ];
    for m in messages {
        let wire = encode(&m);
        assert!(wire.len() < 1024);
        assert_eq!(decode(&wire), Some(m));
    }
}

#[test]
fn malformed_datagrams_decode_to_nothing() {
    assert_eq!(decode(&Vec::new()), None);
    assert_eq!(decode(&b"X".to_vec()), None);
    assert_eq!(decode(&b"J9".to_vec()), None);
    assert_eq!(decode(&b"C00000001".to_vec()), None);
    assert_eq!(decode(&b"C000000010000000g".to_vec()), None);
    assert_eq!(decode(&b"OX00000000".to_vec()), None);
    assert_eq!(decode(&b"M0000000300000010Z1".to_vec()), None);
    assert_eq!(decode(&b"M0000000300000010U7".to_vec()), None);
    assert_eq!(decode(&b"E0000001".to_vec()), None);
}

#[test]
fn uppercase_hex_is_rejected() {
    assert_eq!(decode(&b"CDEADBEEF00000000".to_vec()), None);
}

#[test]
fn receive_attempts_are_classified() {
    assert_eq!(classify_datagram(&None), ReadType::AllRead);
    assert_eq!(classify_datagram(&Some(b"garbled".to_vec())), ReadType::WrongRead);
    assert_eq!(
        classify_datagram(&Some(encode(&Message::Ready))),
        ReadType::MessageRead(Message::Ready)
    );
}
