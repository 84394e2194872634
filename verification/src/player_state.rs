//! The client side of the synchronization protocol: a local mirror of
//! the authoritative state that accepts only strictly newer snapshots,
//! the outgoing moves a key transition produces, and the
//! classification of the server's replies while joining.
//!
//! The front end owns the socket, the window and the keyboard; it
//! hands every received message and every key transition to this
//! state and sends out exactly the messages it is given back.

use vstd::prelude::*;
use crate::configuration::Configuration;
use crate::messages::{Direction, GameState, Message, PlayerId, PlayerMove, Side, Tick};

verus! {

/// What a reply received while joining means for the client.
#[derive(Clone, Copy, Debug, PartialEq, Eq, Structural)]
pub enum JoinOutcome {
    /// Joined, under this side and player id.
    Joined(Side, PlayerId),
    /// The match is full; the client gives up.
    GameFull,
    /// Not a join reply; keep asking.
    KeepWaiting,
}

/// How a join reply is acted on: an acceptance carries the assigned
/// role, a rejection ends the client, and everything else is ignored
/// while joining.
pub fn classify_join_reply(msg: &Message) -> (r: JoinOutcome)
    ensures
        r == (match *msg {
            Message::Accepted(side, player_id) => JoinOutcome::Joined(side, player_id),
            Message::Taken => JoinOutcome::GameFull,
            _ => JoinOutcome::KeepWaiting,
        }),
{
    match *msg {
        Message::Accepted(side, player_id) => JoinOutcome::Joined(side, player_id),
        Message::Taken => JoinOutcome::GameFull,
        _ => JoinOutcome::KeepWaiting,
    }
}

pub struct PlayerState {
    pub player_id: PlayerId,
    pub side: Side,
    pub game_state: GameState,
    pub left_score: u32,
    pub right_score: u32,
    /// Local tick counter stamped onto outgoing moves.
    pub tick: Tick,
    /// Set once a session end arrives; the front end then exits.
    pub finished: bool,
}

impl PlayerState {
    pub fn new(config: &Configuration, side: Side, player_id: PlayerId) -> (r: PlayerState)
        requires
            config.wf(),
        ensures
            r == (PlayerState {
                player_id,
                side,
                game_state: GameState::spec_from_configuration(*config),
                left_score: 0u32,
                right_score: 0u32,
                tick: 0u32,
                finished: false,
            }),
    {
        PlayerState {
            player_id,
            side,
            game_state: GameState::from_configuration(config),
            left_score: 0,
            right_score: 0,
            tick: 0,
            finished: false,
        }
    }

    pub fn get_player_id(&self) -> (r: PlayerId)
        ensures
            r == self.player_id,
    {
        self.player_id
    }

    /// Apply one message received from the server: snapshots are
    /// tick-gated, so a stale, duplicated or reordered snapshot leaves
    /// the visible state exactly unchanged; a score overwrites the
    /// local score; a session end marks the client finished; anything
    /// else is ignored.
    pub fn apply_server_message(&mut self, msg: Message)
        ensures
            msg matches Message::State(gs) ==> *final(self) == (PlayerState {
                game_state: if gs.tick > old(self).game_state.tick {
                    gs
                } else {
                    old(self).game_state
                },
                ..*old(self)
            }),
            msg matches Message::Score(l, r) ==> *final(self) == (PlayerState {
                left_score: l,
                right_score: r,
                ..*old(self)
            }),
            msg is EndingGame ==> *final(self) == (PlayerState { finished: true, ..*old(self) }),
            !(msg is State) && !(msg is Score) && !(msg is EndingGame) ==> *final(self) == *old(
                self,
            ),
    {
        match msg {
            Message::State(gs) => {
                self.game_state.update(gs);
            },
            Message::Score(left, right) => {
                self.left_score = left;
                self.right_score = right;
            },
            Message::EndingGame(_) => {
                self.finished = true;
            },
            _ => {},
        }
    }

    /// The move a key press produces: presses repeat while the key is
    /// held, so one send is enough — a lost one is repaired by the
    /// next poll.
    pub fn key_down_event(&mut self, dir: Direction) -> (r: Vec<Message>)
        requires
            old(self).tick < u32::MAX,
        ensures
            *final(self) == (PlayerState { tick: (old(self).tick + 1) as Tick, ..*old(self) }),
            r@ == seq![
                Message::Move(
                    PlayerMove { player_id: old(self).player_id, tick: old(self).tick, dir },
                ),
            ],
    {
        let move_msg = Message::Move(
            PlayerMove { player_id: self.player_id, tick: self.tick, dir },
        );
        self.tick = self.tick + 1;
        let mut out: Vec<Message> = Vec::new();
        out.push(move_msg);
        proof {
            assert(out@ =~= seq![
                Message::Move(
                    PlayerMove { player_id: old(self).player_id, tick: old(self).tick, dir },
                ),
            ]);
        }
        out
    }

    /// The moves a key release produces: releases are not repeated by
    /// polling, so the same move goes out twice and the receiver's
    /// tick gating absorbs the duplicate.
    pub fn key_up_event(&mut self, dir: Direction) -> (r: Vec<Message>)
        requires
            old(self).tick + 2 <= u32::MAX,
        ensures
            *final(self) == (PlayerState { tick: (old(self).tick + 2) as Tick, ..*old(self) }),
            r@ == seq![
                Message::Move(
                    PlayerMove { player_id: old(self).player_id, tick: old(self).tick, dir },
                ),
                Message::Move(
                    PlayerMove { player_id: old(self).player_id, tick: old(self).tick, dir },
                ),
            ],
    {
        let move_msg = Message::Move(
            PlayerMove { player_id: self.player_id, tick: self.tick, dir },
        );
        self.tick = self.tick + 2;
        let mut out: Vec<Message> = Vec::new();
        out.push(move_msg);
        out.push(move_msg);
        proof {
            assert(out@ =~= seq![
                Message::Move(
                    PlayerMove { player_id: old(self).player_id, tick: old(self).tick, dir },
                ),
                Message::Move(
                    PlayerMove { player_id: old(self).player_id, tick: old(self).tick, dir },
                ),
            ]);
        }
        out
    }

    /// The session-end request sent when the player quits, redundantly
    /// like every latency-critical control message.
    pub fn quit_messages(&self) -> (r: Vec<Message>)
        ensures
            r@ == seq![
                Message::EndingGame(self.player_id),
                Message::EndingGame(self.player_id),
            ],
    {
        let mut out: Vec<Message> = Vec::new();
        out.push(Message::EndingGame(self.player_id));
        out.push(Message::EndingGame(self.player_id));
        proof {
            assert(out@ =~= seq![
                Message::EndingGame(self.player_id),
                Message::EndingGame(self.player_id),
            ]);
        }
        out
    }
}

} // verus!
