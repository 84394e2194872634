//! The wire codec: every message becomes one datagram in a tagged
//! textual form — an ASCII tag byte followed by fixed-width lowercase
//! hexadecimal fields — and any byte sequence decodes either to
//! exactly the message that produced it or to nothing.
//!
//! Decoding is total: a datagram that is not the encoding of a
//! message is classified as malformed, never misread.

use vstd::prelude::*;
use crate::messages::{Direction, GameState, Message, PlayerMove, ReadType, Side, Vec2u};

verus! {

/// The lowercase hexadecimal digit character for a value below 16.
pub open spec fn hex_char(d: u8) -> u8 {
    if d < 10 {
        (48 + d) as u8
    } else {
        (87 + d) as u8
    }
}

/// Whether a byte is a lowercase hexadecimal digit character.
pub open spec fn is_hex(b: u8) -> bool {
    (48 <= b <= 57) || (97 <= b <= 102)
}

/// The value of a lowercase hexadecimal digit character.
pub open spec fn hexv(b: u8) -> u32 {
    if 48 <= b <= 57 {
        (b - 48) as u32
    } else if 97 <= b <= 102 {
        (b - 87) as u32
    } else {
        0
    }
}

/// A `u32` as eight hexadecimal digit characters, most significant
/// first.
pub open spec fn u32_hex(n: u32) -> Seq<u8> {
    seq![
        hex_char(((n >> 28) & 0xf) as u8),
        hex_char(((n >> 24) & 0xf) as u8),
        hex_char(((n >> 20) & 0xf) as u8),
        hex_char(((n >> 16) & 0xf) as u8),
        hex_char(((n >> 12) & 0xf) as u8),
        hex_char(((n >> 8) & 0xf) as u8),
        hex_char(((n >> 4) & 0xf) as u8),
        hex_char((n & 0xf) as u8),
    ]
}

/// The `u32` whose digits start at `pos`, or nothing when any of the
/// eight bytes there is not a digit.
pub open spec fn spec_read_u32(b: Seq<u8>, pos: int) -> Option<u32>
    recommends
        0 <= pos,
        pos + 8 <= b.len(),
{
    if is_hex(b[pos]) && is_hex(b[pos + 1]) && is_hex(b[pos + 2]) && is_hex(b[pos + 3]) && is_hex(
        b[pos + 4],
    ) && is_hex(b[pos + 5]) && is_hex(b[pos + 6]) && is_hex(b[pos + 7]) {
        Some(
            hexv(b[pos]) << 28 | hexv(b[pos + 1]) << 24 | hexv(b[pos + 2]) << 20 | hexv(b[pos + 3])
                << 16 | hexv(b[pos + 4]) << 12 | hexv(b[pos + 5]) << 8 | hexv(b[pos + 6]) << 4
                | hexv(b[pos + 7]),
        )
    } else {
        None
    }
}

/// Every nibble of a `u32` is below 16 and the eight nibbles rebuild
/// the value.
pub proof fn lemma_u32_nibbles(n: u32)
    ensures
        (n >> 28) & 0xf < 16,
        (n >> 24) & 0xf < 16,
        (n >> 20) & 0xf < 16,
        (n >> 16) & 0xf < 16,
        (n >> 12) & 0xf < 16,
        (n >> 8) & 0xf < 16,
        (n >> 4) & 0xf < 16,
        n & 0xf < 16,
        ((n >> 28) & 0xf) << 28 | ((n >> 24) & 0xf) << 24 | ((n >> 20) & 0xf) << 20 | ((n >> 16)
            & 0xf) << 16 | ((n >> 12) & 0xf) << 12 | ((n >> 8) & 0xf) << 8 | ((n >> 4) & 0xf) << 4
            | (n & 0xf) == n,
{
    assert((n >> 28) & 0xf < 16 && (n >> 24) & 0xf < 16 && (n >> 20) & 0xf < 16 && (n >> 16) & 0xf
        < 16 && (n >> 12) & 0xf < 16 && (n >> 8) & 0xf < 16 && (n >> 4) & 0xf < 16 && n & 0xf < 16
        && (((n >> 28) & 0xf) << 28 | ((n >> 24) & 0xf) << 24 | ((n >> 20) & 0xf) << 20 | ((n >> 16)
        & 0xf) << 16 | ((n >> 12) & 0xf) << 12 | ((n >> 8) & 0xf) << 8 | ((n >> 4) & 0xf) << 4 | (n
        & 0xf)) == n) by (bit_vector);
}

/// A digit character is a digit and carries its value back.
pub proof fn lemma_hex_char_value(d: u8)
    requires
        d < 16,
    ensures
        is_hex(hex_char(d)),
        hexv(hex_char(d)) == d as u32,
{
}

/// A digit character is the character of its value: the encoding is
/// canonical.
pub proof fn lemma_hex_char_of_value(b: u8)
    requires
        is_hex(b),
    ensures
        hexv(b) < 16,
        hex_char(hexv(b) as u8) == b,
{
}

/// Reading eight digit characters written from a `u32` yields that
/// `u32` again.
pub proof fn lemma_read_of_hex(b: Seq<u8>, pos: int, n: u32)
    requires
        0 <= pos,
        pos + 8 <= b.len(),
        b.subrange(pos, pos + 8) =~= u32_hex(n),
    ensures
        spec_read_u32(b, pos) == Some(n),
{
    lemma_u32_nibbles(n);
    assert forall|k: int| 0 <= k < 8 implies b[pos + k] == u32_hex(n)[k] by {
        assert(b.subrange(pos, pos + 8)[k] == b[pos + k]);
    }
    lemma_hex_char_value(((n >> 28) & 0xf) as u8);
    lemma_hex_char_value(((n >> 24) & 0xf) as u8);
    lemma_hex_char_value(((n >> 20) & 0xf) as u8);
    lemma_hex_char_value(((n >> 16) & 0xf) as u8);
    lemma_hex_char_value(((n >> 12) & 0xf) as u8);
    lemma_hex_char_value(((n >> 8) & 0xf) as u8);
    lemma_hex_char_value(((n >> 4) & 0xf) as u8);
    lemma_hex_char_value((n & 0xf) as u8);
}

/// Rebuilding a `u32` from eight nibble values gives each nibble
/// back.
pub proof fn lemma_u32_from_nibbles(
    d0: u32,
    d1: u32,
    d2: u32,
    d3: u32,
    d4: u32,
    d5: u32,
    d6: u32,
    d7: u32,
)
    requires
        d0 < 16,
        d1 < 16,
        d2 < 16,
        d3 < 16,
        d4 < 16,
        d5 < 16,
        d6 < 16,
        d7 < 16,
    ensures
        ({
            let n = d0 << 28 | d1 << 24 | d2 << 20 | d3 << 16 | d4 << 12 | d5 << 8 | d6 << 4 | d7;
            &&& (n >> 28) & 0xf == d0
            &&& (n >> 24) & 0xf == d1
            &&& (n >> 20) & 0xf == d2
            &&& (n >> 16) & 0xf == d3
            &&& (n >> 12) & 0xf == d4
            &&& (n >> 8) & 0xf == d5
            &&& (n >> 4) & 0xf == d6
            &&& n & 0xf == d7
        }),
{
    let n = d0 << 28 | d1 << 24 | d2 << 20 | d3 << 16 | d4 << 12 | d5 << 8 | d6 << 4 | d7;
    assert((d0 < 16 && d1 < 16 && d2 < 16 && d3 < 16 && d4 < 16 && d5 < 16 && d6 < 16 && d7 < 16
        && n == (d0 << 28 | d1 << 24 | d2 << 20 | d3 << 16 | d4 << 12 | d5 << 8 | d6 << 4 | d7))
        ==> ((n >> 28) & 0xf == d0 && (n >> 24) & 0xf == d1 && (n >> 20) & 0xf == d2 && (n >> 16)
        & 0xf == d3 && (n >> 12) & 0xf == d4 && (n >> 8) & 0xf == d5 && (n >> 4) & 0xf == d6 && n
        & 0xf == d7)) by (bit_vector);
}

/// A successful read pins the bytes down: they are exactly the digit
/// characters of the value read.
pub proof fn lemma_hex_of_read(b: Seq<u8>, pos: int, n: u32)
    requires
        0 <= pos,
        pos + 8 <= b.len(),
        spec_read_u32(b, pos) == Some(n),
    ensures
        b.subrange(pos, pos + 8) =~= u32_hex(n),
{
    lemma_hex_char_of_value(b[pos]);
    lemma_hex_char_of_value(b[pos + 1]);
    lemma_hex_char_of_value(b[pos + 2]);
    lemma_hex_char_of_value(b[pos + 3]);
    lemma_hex_char_of_value(b[pos + 4]);
    lemma_hex_char_of_value(b[pos + 5]);
    lemma_hex_char_of_value(b[pos + 6]);
    lemma_hex_char_of_value(b[pos + 7]);
    lemma_u32_from_nibbles(
        hexv(b[pos]),
        hexv(b[pos + 1]),
        hexv(b[pos + 2]),
        hexv(b[pos + 3]),
        hexv(b[pos + 4]),
        hexv(b[pos + 5]),
        hexv(b[pos + 6]),
        hexv(b[pos + 7]),
    );
}

/// The side byte: `L` or `R`.
pub open spec fn side_char(side: Side) -> u8 {
    match side {
        Side::Left => 76u8,
        Side::Right => 82u8,
    }
}

/// The two direction bytes: the key (`U` or `D`) and whether it is
/// now pressed (`1` or `0`).
pub open spec fn dir_chars(dir: Direction) -> Seq<u8> {
    match dir {
        Direction::Up(b) => seq![
            85u8,
            if b {
                49u8
            } else {
                48u8
            },
        ],
        Direction::Down(b) => seq![
            68u8,
            if b {
                49u8
            } else {
                48u8
            },
        ],
    }
}

/// The datagram of a message: its tag byte followed by its fields.
pub open spec fn spec_encode(m: Message) -> Seq<u8> {
    match m {
        Message::Accepted(side, player_id) => seq![79u8, side_char(side)] + u32_hex(player_id),
        Message::Taken => seq![84u8],
        Message::State(gs) => seq![83u8] + u32_hex(gs.tick) + u32_hex(gs.ball.x) + u32_hex(
            gs.ball.y,
        ) + u32_hex(gs.left_paddle.x) + u32_hex(gs.left_paddle.y) + u32_hex(gs.right_paddle.x)
            + u32_hex(gs.right_paddle.y),
        Message::Ready => seq![89u8],
        Message::Score(left, right) => seq![67u8] + u32_hex(left) + u32_hex(right),
        Message::EndingGame(player_id) => seq![69u8] + u32_hex(player_id),
        Message::Join => seq![74u8],
        Message::Move(pm) => seq![77u8] + u32_hex(pm.player_id) + u32_hex(pm.tick) + dir_chars(
            pm.dir,
        ),
    }
}

/// The message a byte sequence holds, when it is well-formed: the
/// length must match the tag exactly and every field must parse.
pub open spec fn spec_decode(b: Seq<u8>) -> Option<Message> {
    if b.len() == 0 {
        None
    } else if b[0] == 74u8 {
        if b.len() == 1 {
            Some(Message::Join)
        } else {
            None
        }
    } else if b[0] == 84u8 {
        if b.len() == 1 {
            Some(Message::Taken)
        } else {
            None
        }
    } else if b[0] == 89u8 {
        if b.len() == 1 {
            Some(Message::Ready)
        } else {
            None
        }
    } else if b[0] == 79u8 {
        if b.len() == 10 && (b[1] == 76u8 || b[1] == 82u8) {
            match spec_read_u32(b, 2) {
                Some(player_id) => Some(
                    Message::Accepted(
                        if b[1] == 76u8 {
                            Side::Left
                        } else {
                            Side::Right
                        },
                        player_id,
                    ),
                ),
                None => None,
            }
        } else {
            None
        }
    } else if b[0] == 69u8 {
        if b.len() == 9 {
            match spec_read_u32(b, 1) {
                Some(player_id) => Some(Message::EndingGame(player_id)),
                None => None,
            }
        } else {
            None
        }
    } else if b[0] == 67u8 {
        if b.len() == 17 {
            match (spec_read_u32(b, 1), spec_read_u32(b, 9)) {
                (Some(left), Some(right)) => Some(Message::Score(left, right)),
                _ => None,
            }
        } else {
            None
        }
    } else if b[0] == 83u8 {
        if b.len() == 57 {
            match (
                spec_read_u32(b, 1),
                spec_read_u32(b, 9),
                spec_read_u32(b, 17),
                spec_read_u32(b, 25),
                spec_read_u32(b, 33),
                spec_read_u32(b, 41),
                spec_read_u32(b, 49),
            ) {
                (
                    Some(tick),
                    Some(bx),
                    Some(by),
                    Some(lx),
                    Some(ly),
                    Some(rx),
                    Some(ry),
                ) => Some(
                    Message::State(
                        GameState {
                            tick,
                            ball: Vec2u { x: bx, y: by },
                            left_paddle: Vec2u { x: lx, y: ly },
                            right_paddle: Vec2u { x: rx, y: ry },
                        },
                    ),
                ),
                _ => None,
            }
        } else {
            None
        }
    } else if b[0] == 77u8 {
        if b.len() == 19 && (b[17] == 85u8 || b[17] == 68u8) && (b[18] == 48u8 || b[18] == 49u8) {
            match (spec_read_u32(b, 1), spec_read_u32(b, 9)) {
                (Some(player_id), Some(tick)) => Some(
                    Message::Move(
                        PlayerMove {
                            player_id,
                            tick,
                            dir: if b[17] == 85u8 {
                                Direction::Up(b[18] == 49u8)
                            } else {
                                Direction::Down(b[18] == 49u8)
                            },
                        },
                    ),
                ),
                _ => None,
            }
        } else {
            None
        }
    } else {
        None
    }
}

/// One digit character, written.
fn push_hex_char(out: &mut Vec<u8>, d: u8)
    requires
        d < 16,
    ensures
        final(out)@ == old(out)@.push(hex_char(d)),
{
    if d < 10 {
        out.push(48 + d);
    } else {
        out.push(87 + d);
    }
}

/// One `u32` field, written as its eight digit characters.
fn push_u32_hex(out: &mut Vec<u8>, n: u32)
    ensures
        final(out)@ == old(out)@ + u32_hex(n),
{
    proof {
        lemma_u32_nibbles(n);
    }
    push_hex_char(out, ((n >> 28) & 0xf) as u8);
    push_hex_char(out, ((n >> 24) & 0xf) as u8);
    push_hex_char(out, ((n >> 20) & 0xf) as u8);
    push_hex_char(out, ((n >> 16) & 0xf) as u8);
    push_hex_char(out, ((n >> 12) & 0xf) as u8);
    push_hex_char(out, ((n >> 8) & 0xf) as u8);
    push_hex_char(out, ((n >> 4) & 0xf) as u8);
    push_hex_char(out, (n & 0xf) as u8);
    proof {
        assert(final(out)@ =~= old(out)@ + u32_hex(n));
    }
}

/// The value of one digit character, when it is one.
fn read_hex_char(b: u8) -> (r: Option<u8>)
    ensures
        r == if is_hex(b) {
            Some((hexv(b)) as u8)
        } else {
            Option::<u8>::None
        },
{
    if 48 <= b && b <= 57 {
        Some(b - 48)
    } else if 97 <= b && b <= 102 {
        Some(b - 87)
    } else {
        None
    }
}

/// One `u32` field, read from its eight digit characters.
fn read_u32_hex(bytes: &Vec<u8>, pos: usize) -> (r: Option<u32>)
    requires
        pos + 8 <= bytes@.len(),
    ensures
        r == spec_read_u32(bytes@, pos as int),
{
    // the vector's exec length pins its view length into index range
    let n: usize = bytes.len();
    proof {
        assert(pos + 8 <= n);
    }
    let v0 = read_hex_char(bytes[pos]);
    let v1 = read_hex_char(bytes[pos + 1]);
    let v2 = read_hex_char(bytes[pos + 2]);
    let v3 = read_hex_char(bytes[pos + 3]);
    let v4 = read_hex_char(bytes[pos + 4]);
    let v5 = read_hex_char(bytes[pos + 5]);
    let v6 = read_hex_char(bytes[pos + 6]);
    let v7 = read_hex_char(bytes[pos + 7]);
    match (v0, v1, v2, v3, v4, v5, v6, v7) {
        (
            Some(d0),
            Some(d1),
            Some(d2),
            Some(d3),
            Some(d4),
            Some(d5),
            Some(d6),
            Some(d7),
        ) => Some(
            (d0 as u32) << 28 | (d1 as u32) << 24 | (d2 as u32) << 20 | (d3 as u32) << 16 | (
            d4 as u32) << 12 | (d5 as u32) << 8 | (d6 as u32) << 4 | (d7 as u32),
        ),
        _ => None,
    }
}

/// Encode a message into the one datagram that carries it; every
/// datagram fits far inside a 1024-byte receive buffer.
pub fn encode(msg: &Message) -> (r: Vec<u8>)
    ensures
        r@ == spec_encode(*msg),
        r@.len() <= 57,
{
    let mut out: Vec<u8> = Vec::new();
    match *msg {
        Message::Accepted(side, player_id) => {
            out.push(79);
            out.push(
                match side {
                    Side::Left => 76,
                    Side::Right => 82,
                },
            );
            push_u32_hex(&mut out, player_id);
            proof {
                assert(out@ =~= spec_encode(*msg));
            }
        },
        Message::Taken => {
            out.push(84);
            proof {
                assert(out@ =~= spec_encode(*msg));
            }
        },
        Message::State(gs) => {
            out.push(83);
            push_u32_hex(&mut out, gs.tick);
            push_u32_hex(&mut out, gs.ball.x);
            push_u32_hex(&mut out, gs.ball.y);
            push_u32_hex(&mut out, gs.left_paddle.x);
            push_u32_hex(&mut out, gs.left_paddle.y);
            push_u32_hex(&mut out, gs.right_paddle.x);
            push_u32_hex(&mut out, gs.right_paddle.y);
            proof {
                assert(out@ =~= spec_encode(*msg));
            }
        },
        Message::Ready => {
            out.push(89);
            proof {
                assert(out@ =~= spec_encode(*msg));
            }
        },
        Message::Score(left, right) => {
            out.push(67);
            push_u32_hex(&mut out, left);
            push_u32_hex(&mut out, right);
            proof {
                assert(out@ =~= spec_encode(*msg));
            }
        },
        Message::EndingGame(player_id) => {
            out.push(69);
            push_u32_hex(&mut out, player_id);
            proof {
                assert(out@ =~= spec_encode(*msg));
            }
        },
        Message::Join => {
            out.push(74);
            proof {
                assert(out@ =~= spec_encode(*msg));
            }
        },
        Message::Move(pm) => {
            out.push(77);
            push_u32_hex(&mut out, pm.player_id);
            push_u32_hex(&mut out, pm.tick);
            match pm.dir {
                Direction::Up(pressed) => {
                    out.push(85);
                    out.push(
                        if pressed {
                            49
                        } else {
                            48
                        },
                    );
                },
                Direction::Down(pressed) => {
                    out.push(68);
                    out.push(
                        if pressed {
                            49
                        } else {
                            48
                        },
                    );
                },
            }
            proof {
                assert(out@ =~= spec_encode(*msg));
            }
        },
    }
    out
}

/// Decode one datagram; anything that is not exactly the encoding of
/// a message comes back as nothing.
pub fn decode(bytes: &Vec<u8>) -> (r: Option<Message>)
    ensures
        r == spec_decode(bytes@),
{
    let n = bytes.len();
    if n == 0 {
        return None;
    }
    let tag = bytes[0];
    if tag == 74 {
        if n == 1 {
            Some(Message::Join)
        } else {
            None
        }
    } else if tag == 84 {
        if n == 1 {
            Some(Message::Taken)
        } else {
            None
        }
    } else if tag == 89 {
        if n == 1 {
            Some(Message::Ready)
        } else {
            None
        }
    } else if tag == 79 {
        if n == 10 && (bytes[1] == 76 || bytes[1] == 82) {
            match read_u32_hex(bytes, 2) {
                Some(player_id) => Some(
                    Message::Accepted(
                        if bytes[1] == 76 {
                            Side::Left
                        } else {
                            Side::Right
                        },
                        player_id,
                    ),
                ),
                None => None,
            }
        } else {
            None
        }
    } else if tag == 69 {
        if n == 9 {
            match read_u32_hex(bytes, 1) {
                Some(player_id) => Some(Message::EndingGame(player_id)),
                None => None,
            }
        } else {
            None
        }
    } else if tag == 67 {
        if n == 17 {
            match (read_u32_hex(bytes, 1), read_u32_hex(bytes, 9)) {
                (Some(left), Some(right)) => Some(Message::Score(left, right)),
                _ => None,
            }
        } else {
            None
        }
    } else if tag == 83 {
        if n == 57 {
            match (
                read_u32_hex(bytes, 1),
                read_u32_hex(bytes, 9),
                read_u32_hex(bytes, 17),
                read_u32_hex(bytes, 25),
                read_u32_hex(bytes, 33),
                read_u32_hex(bytes, 41),
                read_u32_hex(bytes, 49),
            ) {
                (
                    Some(tick),
                    Some(bx),
                    Some(by),
                    Some(lx),
                    Some(ly),
                    Some(rx),
                    Some(ry),
                ) => Some(
                    Message::State(
                        GameState {
                            tick,
                            ball: Vec2u { x: bx, y: by },
                            left_paddle: Vec2u { x: lx, y: ly },
                            right_paddle: Vec2u { x: rx, y: ry },
                        },
                    ),
                ),
                _ => None,
            }
        } else {
            None
        }
    } else if tag == 77 {
        if n == 19 && (bytes[17] == 85 || bytes[17] == 68) && (bytes[18] == 48 || bytes[18] == 49) {
            match (read_u32_hex(bytes, 1), read_u32_hex(bytes, 9)) {
                (Some(player_id), Some(tick)) => Some(
                    Message::Move(
                        PlayerMove {
                            player_id,
                            tick,
                            dir: if bytes[17] == 85 {
                                Direction::Up(bytes[18] == 49)
                            } else {
                                Direction::Down(bytes[18] == 49)
                            },
                        },
                    ),
                ),
                _ => None,
            }
        } else {
            None
        }
    } else {
        None
    }
}

/// Classify one receive attempt: no datagram means nothing was
/// pending, a datagram decodes to its message or is malformed.
pub fn classify_datagram(datagram: &Option<Vec<u8>>) -> (r: ReadType)
    ensures
        datagram is None ==> r == ReadType::AllRead,
        datagram matches Some(b) ==> r == (match spec_decode(b@) {
            Some(m) => ReadType::MessageRead(m),
            None => ReadType::WrongRead,
        }),
{
    match datagram {
        None => ReadType::AllRead,
        Some(b) => match decode(b) {
            Some(m) => ReadType::MessageRead(m),
            None => ReadType::WrongRead,
        },
    }
}

/// The round trip of a state snapshot, whose datagram carries seven
/// fields.
#[verifier::rlimit(100)]
proof fn lemma_state_round_trip(gs: GameState)
    ensures
        spec_decode(spec_encode(Message::State(gs))) == Some(Message::State(gs)),
{
    let e = spec_encode(Message::State(gs));
    assert(e.subrange(1, 9) =~= u32_hex(gs.tick));
    assert(e.subrange(9, 17) =~= u32_hex(gs.ball.x));
    assert(e.subrange(17, 25) =~= u32_hex(gs.ball.y));
    assert(e.subrange(25, 33) =~= u32_hex(gs.left_paddle.x));
    assert(e.subrange(33, 41) =~= u32_hex(gs.left_paddle.y));
    assert(e.subrange(41, 49) =~= u32_hex(gs.right_paddle.x));
    assert(e.subrange(49, 57) =~= u32_hex(gs.right_paddle.y));
    lemma_read_of_hex(e, 1, gs.tick);
    lemma_read_of_hex(e, 9, gs.ball.x);
    lemma_read_of_hex(e, 17, gs.ball.y);
    lemma_read_of_hex(e, 25, gs.left_paddle.x);
    lemma_read_of_hex(e, 33, gs.left_paddle.y);
    lemma_read_of_hex(e, 41, gs.right_paddle.x);
    lemma_read_of_hex(e, 49, gs.right_paddle.y);
}

/// Decoding inverts encoding: every message survives the round trip
/// through the wire form unchanged.
#[verifier::rlimit(100)]
pub proof fn lemma_codec_round_trip(m: Message)
    ensures
        spec_decode(spec_encode(m)) == Some(m),
{
    let e = spec_encode(m);
    match m {
        Message::Accepted(side, player_id) => {
            assert(e.subrange(2, 10) =~= u32_hex(player_id));
            lemma_read_of_hex(e, 2, player_id);
        },
        Message::Taken => {
        },
        Message::State(gs) => {
            lemma_state_round_trip(gs);
        },
        Message::Ready => {
        },
        Message::Score(left, right) => {
            assert(e.subrange(1, 9) =~= u32_hex(left));
            assert(e.subrange(9, 17) =~= u32_hex(right));
            lemma_read_of_hex(e, 1, left);
            lemma_read_of_hex(e, 9, right);
        },
        Message::EndingGame(player_id) => {
            assert(e.subrange(1, 9) =~= u32_hex(player_id));
            lemma_read_of_hex(e, 1, player_id);
        },
        Message::Join => {
        },
        Message::Move(pm) => {
            assert(e.subrange(1, 9) =~= u32_hex(pm.player_id));
            assert(e.subrange(9, 17) =~= u32_hex(pm.tick));
            lemma_read_of_hex(e, 1, pm.player_id);
            lemma_read_of_hex(e, 9, pm.tick);
        },
    }
}

/// The unambiguity of a state snapshot's datagram.
#[verifier::rlimit(100)]
proof fn lemma_state_unambiguous(b: Seq<u8>, gs: GameState)
    requires
        spec_decode(b) == Some(Message::State(gs)),
    ensures
        b == spec_encode(Message::State(gs)),
{
    lemma_hex_of_read(b, 1, gs.tick);
    lemma_hex_of_read(b, 9, gs.ball.x);
    lemma_hex_of_read(b, 17, gs.ball.y);
    lemma_hex_of_read(b, 25, gs.left_paddle.x);
    lemma_hex_of_read(b, 33, gs.left_paddle.y);
    lemma_hex_of_read(b, 41, gs.right_paddle.x);
    lemma_hex_of_read(b, 49, gs.right_paddle.y);
    assert(b =~= spec_encode(Message::State(gs)));
}

/// The wire form is unambiguous: a datagram that decodes to a message
/// is exactly that message's encoding, so distinct messages never
/// share a datagram.
#[verifier::rlimit(50)]
pub proof fn lemma_codec_unambiguous(b: Seq<u8>, m: Message)
    requires
        spec_decode(b) == Some(m),
    ensures
        b == spec_encode(m),
{
    if b[0] == 74u8 || b[0] == 84u8 || b[0] == 89u8 {
        assert(b =~= spec_encode(m));
    } else if b[0] == 79u8 {
        let player_id = m->Accepted_1;
        lemma_hex_of_read(b, 2, player_id);
        assert(b =~= spec_encode(m));
    } else if b[0] == 69u8 {
        let player_id = m->EndingGame_0;
        lemma_hex_of_read(b, 1, player_id);
        assert(b =~= spec_encode(m));
    } else if b[0] == 67u8 {
        lemma_hex_of_read(b, 1, m->Score_0);
        lemma_hex_of_read(b, 9, m->Score_1);
        assert(b =~= spec_encode(m));
    } else if b[0] == 83u8 {
        lemma_state_unambiguous(b, m->State_0);
    } else {
        let pm = m->Move_0;
        lemma_hex_of_read(b, 1, pm.player_id);
        lemma_hex_of_read(b, 9, pm.tick);
        assert(b =~= spec_encode(m));
    }
}

} // verus!
