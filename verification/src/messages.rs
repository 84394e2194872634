//! The message set exchanged between the server and the two clients of
//! a match, together with the tick-gated state snapshot each client
//! keeps.
//!
//! Every message carries plain integers; positions in a snapshot are
//! milli-pixel coordinates, always non-negative because the simulation
//! keeps the ball and the paddles inside the field.

use vstd::prelude::*;
use crate::configuration::Configuration;

verus! {

/// Logical time step; also the staleness discriminator for datagrams.
pub type Tick = u32;

/// Identifier handed out by the matchmaker, unique per process.
pub type PlayerId = u32;

/// Identifier of one running match; two player ids share one of these.
pub type GameId = u32;

/// A peer address, reduced to a plain token (an IPv4 address and port
/// fit in it); the transport layer owns the real socket addresses.
pub type Addr = u64;

#[derive(Clone, Copy, Debug, PartialEq, Eq, Structural)]
pub enum Side {
    Left,
    Right,
}

/// A key transition: the payload says whether the key is now pressed.
#[derive(Clone, Copy, Debug, PartialEq, Eq, Structural)]
pub enum Direction {
    Up(bool),
    Down(bool),
}

#[derive(Clone, Copy, Debug, PartialEq, Eq, Structural)]
pub struct PlayerMove {
    pub player_id: PlayerId,
    pub tick: Tick,
    pub dir: Direction,
}

/// A non-negative milli-pixel coordinate pair, as sent on the wire.
#[derive(Clone, Copy, Debug, PartialEq, Eq, Structural)]
pub struct Vec2u {
    pub x: u32,
    pub y: u32,
}

/// Authoritative snapshot broadcast every tick.
#[derive(Clone, Copy, Debug, PartialEq, Eq, Structural)]
pub struct GameState {
    pub tick: Tick,
    pub ball: Vec2u,
    pub left_paddle: Vec2u,
    pub right_paddle: Vec2u,
}

impl GameState {
    pub fn new(tick: Tick, ball: Vec2u, left_paddle: Vec2u, right_paddle: Vec2u) -> (r:
        GameState)
        ensures
            r == (GameState { tick, ball, left_paddle, right_paddle }),
    {
        GameState { tick, ball, left_paddle, right_paddle }
    }

    /// Accept a snapshot only if it is strictly newer; stale or
    /// duplicated snapshots leave the state exactly as it was.
    pub fn update(&mut self, gs: GameState)
        ensures
            gs.tick > old(self).tick ==> *final(self) == gs,
            gs.tick <= old(self).tick ==> *final(self) == *old(self),
    {
        if gs.tick > self.tick {
            self.tick = gs.tick;
            self.ball = gs.ball;
            self.left_paddle = gs.left_paddle;
            self.right_paddle = gs.right_paddle;
        }
    }

    /// The snapshot a fresh match starts from, as a value.
    pub open spec fn spec_from_configuration(config: Configuration) -> GameState {
        GameState {
            tick: 0u32,
            ball: Vec2u {
                x: (config.screen_width / 2) as u32,
                y: (config.screen_height / 2) as u32,
            },
            left_paddle: Vec2u {
                x: (config.paddle_width / 2) as u32,
                y: (config.screen_height / 2) as u32,
            },
            right_paddle: Vec2u {
                x: (config.screen_width - config.paddle_width / 2) as u32,
                y: (config.screen_height / 2) as u32,
            },
        }
    }

    /// The snapshot a fresh match starts from: ball in the centre of
    /// the field, paddles on the centre line of their goal edges.
    pub fn from_configuration(config: &Configuration) -> (r: GameState)
        requires
            config.wf(),
        ensures
            r == GameState::spec_from_configuration(*config),
    {
        GameState {
            tick: 0,
            ball: Vec2u { x: (config.screen_width / 2) as u32, y: (config.screen_height / 2) as u32 },
            left_paddle: Vec2u { x: (config.paddle_width / 2) as u32, y: (config.screen_height / 2) as u32 },
            right_paddle: Vec2u {
                x: (config.screen_width - config.paddle_width / 2) as u32,
                y: (config.screen_height / 2) as u32,
            },
        }
    }
}

impl Default for GameState {
    fn default() -> (r: GameState)
        ensures
            r == (GameState {
                tick: 0u32,
                ball: Vec2u { x: 0u32, y: 0u32 },
                left_paddle: Vec2u { x: 0u32, y: 0u32 },
                right_paddle: Vec2u { x: 0u32, y: 0u32 },
            }),
    {
        GameState {
            tick: 0,
            ball: Vec2u { x: 0, y: 0 },
            left_paddle: Vec2u { x: 0, y: 0 },
            right_paddle: Vec2u { x: 0, y: 0 },
        }
    }
}

#[derive(Clone, Copy, Debug, PartialEq, Eq, Structural)]
pub enum Message {
    /// Server: join accepted, with the assigned side and player id.
    Accepted(Side, PlayerId),
    /// Server: join rejected.
    Taken,
    /// Server: authoritative snapshot for this tick.
    State(GameState),
    /// Server: the match is paired and about to start ticking.
    Ready,
    /// Server: the score after a goal, left then right.
    Score(u32, u32),
    /// Either: the named player asked to end the session.
    EndingGame(PlayerId),
    /// Client: request to join a match.
    Join,
    /// Client: a key transition, gated by its tick on the server.
    Move(PlayerMove),
}

/// Classification of one receive attempt on a non-blocking socket.
#[derive(Clone, Copy, Debug, PartialEq, Eq, Structural)]
pub enum ReadType {
    /// Nothing was pending.
    AllRead,
    /// A datagram arrived but did not decode to a message.
    WrongRead,
    /// A well-formed message arrived.
    MessageRead(Message),
}

} // verus!
