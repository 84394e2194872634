//! The worker of one running match: it drains the messages routed to
//! it, latches player moves by their ticks, asks the simulation for
//! one tick, and says which messages must be broadcast to the two
//! players.
//!
//! The transport layer runs the fixed-tick timing loop and performs
//! the sends; every decision of the loop body is made and checked
//! here.

use vstd::prelude::*;
use crate::configuration::Configuration;
use crate::messages::{Direction, Message, PlayerId, PlayerMove, Side, Tick};
use crate::multiplayer_pong::MultiplayerPong;
use crate::server::{PlayerInput, apply_moves, lemma_apply_moves_tick};
use crate::state::RoundResult;

verus! {

/// How many times a latency-critical control message (match start,
/// session end, key release) is sent, to raise delivery odds over the
/// unreliable transport.
pub const REDUNDANT_SENDS: usize = 2;

/// Lifecycle of one match worker.
#[derive(Clone, Copy, Debug, PartialEq, Eq, Structural)]
pub enum MatchPhase {
    /// Paired, but the start announcement has not gone out yet.
    AwaitingStart,
    /// Ticking; inputs are consumed and state is broadcast.
    Running,
    /// A session end was observed and announced; no tick runs again.
    Terminated,
}

/// One message the transport layer must send to one of the players.
#[derive(Clone, Copy, Debug, PartialEq, Eq, Structural)]
pub struct Outbound {
    pub to: Side,
    pub msg: Message,
}

/// The moves of one drained batch that belong to the given player, in
/// arrival order.
pub open spec fn moves_for(id: PlayerId, s: Seq<Message>) -> Seq<PlayerMove>
    decreases s.len(),
{
    if s.len() == 0 {
        Seq::empty()
    } else {
        moves_for(id, s.drop_last()) + (match s.last() {
            Message::Move(pm) => if pm.player_id == id {
                seq![pm]
            } else {
                Seq::empty()
            },
            _ => Seq::empty(),
        })
    }
}

/// Extending a drained prefix by one message extends the moves of a
/// player by that message exactly when it is that player's move.
pub proof fn lemma_moves_for_extend(id: PlayerId, s: Seq<Message>, i: int)
    requires
        0 <= i < s.len(),
    ensures
        moves_for(id, s.subrange(0, i + 1)) == moves_for(id, s.subrange(0, i)) + (match s[i] {
            Message::Move(pm) => if pm.player_id == id {
                seq![pm]
            } else {
                Seq::empty()
            },
            _ => Seq::<PlayerMove>::empty(),
        }),
{
    assert(s.subrange(0, i + 1).drop_last() =~= s.subrange(0, i));
    assert(s.subrange(0, i + 1).last() == s[i]);
}

/// Latching one more move is one more latch step.
pub proof fn lemma_apply_moves_push(init: PlayerInput, ms: Seq<PlayerMove>, pm: PlayerMove)
    ensures
        apply_moves(init, ms + seq![pm]) == apply_moves(init, ms).spec_updated(pm),
{
    assert((ms + seq![pm]).drop_last() =~= ms);
    assert((ms + seq![pm]).last() == pm);
}

/// A message that is not this player's move latches nothing.
pub proof fn lemma_apply_moves_skip(init: PlayerInput, ms: Seq<PlayerMove>)
    ensures
        apply_moves(init, ms + Seq::<PlayerMove>::empty()) == apply_moves(init, ms),
{
    assert(ms + Seq::<PlayerMove>::empty() =~= ms);
}

/// Every move that the drain keeps for a player is that player's and
/// stands somewhere in the batch.
pub proof fn lemma_moves_for_membership(id: PlayerId, s: Seq<Message>)
    ensures
        forall|x: int|
            0 <= x < moves_for(id, s).len() ==> (#[trigger] moves_for(id, s)[x]).player_id == id
                && exists|k: int| 0 <= k < s.len() && s[k] == Message::Move(moves_for(id, s)[x]),
    decreases s.len(),
{
    if s.len() > 0 {
        lemma_moves_for_membership(id, s.drop_last());
        let ms = moves_for(id, s);
        let prefix = moves_for(id, s.drop_last());
        assert forall|x: int|
            0 <= x < ms.len() implies (#[trigger] ms[x]).player_id == id && exists|k: int|
            0 <= k < s.len() && s[k] == Message::Move(ms[x]) by {
            if x < prefix.len() {
                assert(ms[x] == prefix[x]);
                let k = choose|k: int|
                    0 <= k < s.drop_last().len() && s.drop_last()[k] == Message::Move(prefix[x]);
                assert(s[k] == Message::Move(ms[x]));
            } else {
                assert(s[s.len() - 1] == Message::Move(ms[x]));
            }
        }
    }
}

/// Out-of-order delivery within one drained batch of datagrams does
/// not matter: when a player's moves in the batch carry pairwise
/// distinct ticks (they were sent with strictly increasing ticks) and
/// the newest of them is newer than the stored tick, that player's
/// latched input after the drain reflects exactly the newest move, no
/// matter where in the batch it arrived.
pub proof fn lemma_drain_latches_newest(init: PlayerInput, id: PlayerId, s: Seq<Message>, j: int)
    requires
        0 <= j < s.len(),
        s[j] is Move,
        (s[j]->Move_0).player_id == id,
        (s[j]->Move_0).tick > init.tick,
        forall|k: int|
            0 <= k < s.len() && k != j && #[trigger] s[k] is Move && (s[k]->Move_0).player_id == id
                ==> (s[k]->Move_0).tick < (s[j]->Move_0).tick,
    ensures
        apply_moves(init, moves_for(id, s)).tick == (s[j]->Move_0).tick,
        ((s[j]->Move_0).dir matches Direction::Up(b) ==> apply_moves(init, moves_for(id, s)).up
            == b),
        ((s[j]->Move_0).dir matches Direction::Down(b) ==> apply_moves(init, moves_for(id, s)).down
            == b),
    decreases s.len(),
{
    let pm = s[j]->Move_0;
    let prefix = moves_for(id, s.drop_last());
    if j == s.len() - 1 {
        lemma_moves_for_membership(id, s.drop_last());
        lemma_apply_moves_tick(init, prefix);
        let latched = apply_moves(init, prefix);
        assert(latched.tick < pm.tick) by {
            if latched.tick != init.tick {
                let x = choose|x: int| 0 <= x < prefix.len() && latched.tick == prefix[x].tick;
                let k = choose|k: int|
                    0 <= k < s.drop_last().len() && s.drop_last()[k] == Message::Move(prefix[x]);
                assert(s[k] is Move && (s[k]->Move_0).player_id == id);
            }
        }
        lemma_apply_moves_push(init, prefix, pm);
    } else {
        lemma_drain_latches_newest(init, id, s.drop_last(), j);
        match s.last() {
            Message::Move(q) => {
                if q.player_id == id {
                    assert(s[s.len() - 1] is Move);
                    lemma_apply_moves_push(init, prefix, q);
                } else {
                    lemma_apply_moves_skip(init, prefix);
                }
            },
            _ => {
                lemma_apply_moves_skip(init, prefix);
            },
        }
    }
}

/// The first session-end request of a batch stands at `j`.
pub open spec fn end_at(s: Seq<Message>, j: int) -> bool {
    &&& 0 <= j < s.len()
    &&& s[j] is EndingGame
    &&& forall|k: int| 0 <= k < j ==> !(#[trigger] s[k] is EndingGame)
}

pub struct MatchWorker {
    pub left_player_id: PlayerId,
    pub right_player_id: PlayerId,
    pub left_last_move: PlayerInput,
    pub right_last_move: PlayerInput,
    pub game: MultiplayerPong,
    /// Left and right score.
    pub score: (u32, u32),
    pub tick: Tick,
    pub phase: MatchPhase,
}

impl MatchWorker {
    pub open spec fn wf(self) -> bool {
        &&& self.game.wf()
        &&& self.left_player_id != self.right_player_id
    }

    /// A fresh worker for a newly paired match: simulation at the
    /// configured start, no latched input, score nought-nought, tick
    /// zero, waiting to announce the start.
    pub fn new(left_player_id: PlayerId, right_player_id: PlayerId, config: &Configuration) -> (r:
        MatchWorker)
        requires
            config.wf(),
            left_player_id != right_player_id,
        ensures
            r.left_player_id == left_player_id,
            r.right_player_id == right_player_id,
            r.left_last_move == (PlayerInput { tick: 0u32, up: false, down: false }),
            r.right_last_move == (PlayerInput { tick: 0u32, up: false, down: false }),
            r.game.ball == crate::ball::BallAbstract::spec_from_configuration(*config),
            r.game.left_paddle == crate::paddle::spec_paddles_from_configuration(*config).0,
            r.game.right_paddle == crate::paddle::spec_paddles_from_configuration(*config).1,
            r.game.max_ball_speed == config.max_ball_speed,
            r.game.min_ball_speed == config.min_ball_speed,
            r.score == (0u32, 0u32),
            r.tick == 0,
            r.phase is AwaitingStart,
            r.wf(),
    {
        MatchWorker {
            left_player_id,
            right_player_id,
            left_last_move: PlayerInput::default(),
            right_last_move: PlayerInput::default(),
            game: MultiplayerPong::from_configuration(config),
            score: (0, 0),
            tick: 0,
            phase: MatchPhase::AwaitingStart,
        }
    }

    /// Announce the match start redundantly to both players and enter
    /// the running phase.
    pub fn start(&mut self) -> (out: Vec<Outbound>)
        requires
            old(self).wf(),
            old(self).phase is AwaitingStart,
        ensures
            final(self).wf(),
            *final(self) == (MatchWorker { phase: MatchPhase::Running, ..*old(self) }),
            out@ == seq![
                Outbound { to: Side::Left, msg: Message::Ready },
                Outbound { to: Side::Left, msg: Message::Ready },
                Outbound { to: Side::Right, msg: Message::Ready },
                Outbound { to: Side::Right, msg: Message::Ready },
            ],
    {
        self.phase = MatchPhase::Running;
        let mut out: Vec<Outbound> = Vec::new();
        out.push(Outbound { to: Side::Left, msg: Message::Ready });
        out.push(Outbound { to: Side::Left, msg: Message::Ready });
        out.push(Outbound { to: Side::Right, msg: Message::Ready });
        out.push(Outbound { to: Side::Right, msg: Message::Ready });
        proof {
            assert(out@ =~= seq![
                Outbound { to: Side::Left, msg: Message::Ready },
                Outbound { to: Side::Left, msg: Message::Ready },
                Outbound { to: Side::Right, msg: Message::Ready },
                Outbound { to: Side::Right, msg: Message::Ready },
            ]);
        }
        out
    }

    /// One iteration of the match loop, fed the batch of messages the
    /// router delivered since the last tick.
    ///
    /// Moves are latched in arrival order under the tick rule. The
    /// first session-end request ends the match at once: it is
    /// announced redundantly to both players and no tick runs.
    /// Otherwise the simulation advances one tick, the new snapshot is
    /// broadcast to both players unconditionally, and after a goal
    /// exactly one side's score rises by one and the new score is
    /// broadcast too.
    pub fn tick_once(&mut self, inbound: &Vec<Message>) -> (out: Vec<Outbound>)
        requires
            old(self).wf(),
            old(self).phase is Running,
            old(self).tick < u32::MAX,
            old(self).score.0 < u32::MAX,
            old(self).score.1 < u32::MAX,
            forall|i: int|
                0 <= i < inbound@.len() ==> (#[trigger] inbound@[i] is Move || inbound@[i]
                    is EndingGame),
        ensures
            final(self).wf(),
            final(self).left_player_id == old(self).left_player_id,
            final(self).right_player_id == old(self).right_player_id,
            // a session end in the batch: announce and stop, touching
            // neither simulation, tick nor score
            forall|j: int|
                end_at(inbound@, j) ==> {
                    let pid = inbound@[j]->EndingGame_0;
                    &&& final(self).phase is Terminated
                    &&& final(self).game == old(self).game
                    &&& final(self).tick == old(self).tick
                    &&& final(self).score == old(self).score
                    &&& final(self).left_last_move == apply_moves(
                        old(self).left_last_move,
                        moves_for(old(self).left_player_id, inbound@.subrange(0, j)),
                    )
                    &&& final(self).right_last_move == apply_moves(
                        old(self).right_last_move,
                        moves_for(old(self).right_player_id, inbound@.subrange(0, j)),
                    )
                    &&& out@ == seq![
                        Outbound { to: Side::Left, msg: Message::EndingGame(pid) },
                        Outbound { to: Side::Left, msg: Message::EndingGame(pid) },
                        Outbound { to: Side::Right, msg: Message::EndingGame(pid) },
                        Outbound { to: Side::Right, msg: Message::EndingGame(pid) },
                    ]
                },
            // no session end: latch all moves, tick once, broadcast
            (forall|j: int| 0 <= j < inbound@.len() ==> !(#[trigger] inbound@[j] is EndingGame))
                ==> {
                let lm = apply_moves(
                    old(self).left_last_move,
                    moves_for(old(self).left_player_id, inbound@),
                );
                let rm = apply_moves(
                    old(self).right_last_move,
                    moves_for(old(self).right_player_id, inbound@),
                );
                let goal = old(self).game.ball.spec_goal();
                let gs = final(self).game.spec_snapshot((old(self).tick + 1) as Tick);
                &&& final(self).phase is Running
                &&& final(self).tick == old(self).tick + 1
                &&& final(self).left_last_move == lm
                &&& final(self).right_last_move == rm
                &&& final(self).game.max_ball_speed == old(self).game.max_ball_speed
                &&& final(self).game.min_ball_speed == old(self).game.min_ball_speed
                // a goal resets the field and raises exactly one score
                &&& goal == Some(true) ==> {
                    &&& final(self).score == (old(self).score.0, (old(self).score.1 + 1) as u32)
                    &&& final(self).game.ball == old(self).game.ball.spec_moved().spec_reset()
                    &&& final(self).game.left_paddle == old(self).game.left_paddle.spec_reset()
                    &&& final(self).game.right_paddle == old(self).game.right_paddle.spec_reset()
                    &&& out@ == seq![
                        Outbound { to: Side::Left, msg: Message::State(gs) },
                        Outbound { to: Side::Right, msg: Message::State(gs) },
                        Outbound {
                            to: Side::Left,
                            msg: Message::Score(final(self).score.0, final(self).score.1),
                        },
                        Outbound {
                            to: Side::Right,
                            msg: Message::Score(final(self).score.0, final(self).score.1),
                        },
                    ]
                }
                &&& goal == Some(false) ==> {
                    &&& final(self).score == ((old(self).score.0 + 1) as u32, old(self).score.1)
                    &&& final(self).game.ball == old(self).game.ball.spec_moved().spec_reset()
                    &&& final(self).game.left_paddle == old(self).game.left_paddle.spec_reset()
                    &&& final(self).game.right_paddle == old(self).game.right_paddle.spec_reset()
                    &&& out@ == seq![
                        Outbound { to: Side::Left, msg: Message::State(gs) },
                        Outbound { to: Side::Right, msg: Message::State(gs) },
                        Outbound {
                            to: Side::Left,
                            msg: Message::Score(final(self).score.0, final(self).score.1),
                        },
                        Outbound {
                            to: Side::Right,
                            msg: Message::Score(final(self).score.0, final(self).score.1),
                        },
                    ]
                }
                // no goal: state broadcast only, score untouched, ball
                // moved with its speed inside the configured band
                &&& goal is None ==> {
                    let moved = old(self).game.ball.spec_moved();
                    let pl = old(self).game.left_paddle.spec_updated(lm.up, lm.down);
                    let pr = old(self).game.right_paddle.spec_updated(rm.up, rm.down);
                    &&& final(self).score == old(self).score
                    &&& final(self).game.left_paddle == pl
                    &&& final(self).game.right_paddle == pr
                    &&& final(self).game.ball == (crate::ball::BallAbstract {
                        velocity_vec: crate::ball::spec_clamped_velocity(
                            crate::state::spec_bounced_velocity(moved, pl, pr),
                            old(self).game.max_ball_speed as int,
                            old(self).game.min_ball_speed as int,
                        ),
                        ..moved
                    })
                    &&& old(self).game.min_ball_speed <= crate::ball::cheb_speed(
                        final(self).game.ball.velocity_vec,
                    ) <= old(self).game.max_ball_speed
                    &&& out@ == seq![
                        Outbound { to: Side::Left, msg: Message::State(gs) },
                        Outbound { to: Side::Right, msg: Message::State(gs) },
                    ]
                }
            },
    {
        let ghost s = inbound@;
        let n = inbound.len();
        let mut i: usize = 0;
        while i < n
            invariant
                self.wf(),
                self.phase is Running,
                n == s.len(),
                i <= n,
                s == inbound@,
                forall|k: int|
                    0 <= k < s.len() ==> (#[trigger] s[k] is Move || s[k] is EndingGame),
                forall|k: int| 0 <= k < i ==> !(#[trigger] s[k] is EndingGame),
                self.left_player_id == old(self).left_player_id,
                self.right_player_id == old(self).right_player_id,
                self.game == old(self).game,
                self.tick == old(self).tick,
                self.score == old(self).score,
                self.left_last_move == apply_moves(
                    old(self).left_last_move,
                    moves_for(old(self).left_player_id, s.subrange(0, i as int)),
                ),
                self.right_last_move == apply_moves(
                    old(self).right_last_move,
                    moves_for(old(self).right_player_id, s.subrange(0, i as int)),
                ),
            decreases n - i,
        {
            let msg = inbound[i];
            proof {
                lemma_moves_for_extend(old(self).left_player_id, s, i as int);
                lemma_moves_for_extend(old(self).right_player_id, s, i as int);
            }
            match msg {
                Message::EndingGame(pid) => {
                    proof {
                        assert forall|j: int| end_at(s, j) implies j == i as int by {
                            if j < i as int {
                                assert(s[j] is EndingGame);
                            } else if j > i as int {
                                assert(!(s[i as int] is EndingGame));
                            }
                        }
                        assert(end_at(s, i as int));
                    }
                    self.phase = MatchPhase::Terminated;
                    let mut out: Vec<Outbound> = Vec::new();
                    out.push(Outbound { to: Side::Left, msg: Message::EndingGame(pid) });
                    out.push(Outbound { to: Side::Left, msg: Message::EndingGame(pid) });
                    out.push(Outbound { to: Side::Right, msg: Message::EndingGame(pid) });
                    out.push(Outbound { to: Side::Right, msg: Message::EndingGame(pid) });
                    proof {
                        assert(out@ =~= seq![
                            Outbound { to: Side::Left, msg: Message::EndingGame(pid) },
                            Outbound { to: Side::Left, msg: Message::EndingGame(pid) },
                            Outbound { to: Side::Right, msg: Message::EndingGame(pid) },
                            Outbound { to: Side::Right, msg: Message::EndingGame(pid) },
                        ]);
                    }
                    return out;
                },
                Message::Move(player_move) => {
                    proof {
                        let ml = moves_for(old(self).left_player_id, s.subrange(0, i as int));
                        let mr = moves_for(old(self).right_player_id, s.subrange(0, i as int));
                        if player_move.player_id == self.left_player_id {
                            lemma_apply_moves_push(old(self).left_last_move, ml, player_move);
                            lemma_apply_moves_skip(old(self).right_last_move, mr);
                        } else if player_move.player_id == self.right_player_id {
                            lemma_apply_moves_skip(old(self).left_last_move, ml);
                            lemma_apply_moves_push(old(self).right_last_move, mr, player_move);
                        } else {
                            lemma_apply_moves_skip(old(self).left_last_move, ml);
                            lemma_apply_moves_skip(old(self).right_last_move, mr);
                        }
                    }
                    if player_move.player_id == self.left_player_id {
                        self.left_last_move.update(player_move);
                    } else if player_move.player_id == self.right_player_id {
                        self.right_last_move.update(player_move);
                    }
                },
                _ => {
                    vstd::pervasive::unreached::<()>();
                },
            }
            i = i + 1;
        }
        proof {
            assert(s.subrange(0, n as int) =~= s);
        }
        self.tick = self.tick + 1;
        let left_in = (self.left_last_move.up, self.left_last_move.down);
        let right_in = (self.right_last_move.up, self.right_last_move.down);
        let tick_now = self.tick;
        let (round_result, game_state) = self.game.multi_game_round(left_in, right_in, tick_now);
        let mut out: Vec<Outbound> = Vec::new();
        out.push(Outbound { to: Side::Left, msg: Message::State(game_state) });
        out.push(Outbound { to: Side::Right, msg: Message::State(game_state) });
        match round_result {
            RoundResult::LeftScored => {
                self.score.0 = self.score.0 + 1;
                out.push(
                    Outbound { to: Side::Left, msg: Message::Score(self.score.0, self.score.1) },
                );
                out.push(
                    Outbound { to: Side::Right, msg: Message::Score(self.score.0, self.score.1) },
                );
                proof {
                    assert(out@ =~= seq![
                        Outbound { to: Side::Left, msg: Message::State(game_state) },
                        Outbound { to: Side::Right, msg: Message::State(game_state) },
                        Outbound {
                            to: Side::Left,
                            msg: Message::Score(final(self).score.0, final(self).score.1),
                        },
                        Outbound {
                            to: Side::Right,
                            msg: Message::Score(final(self).score.0, final(self).score.1),
                        },
                    ]);
                }
            },
            RoundResult::RightScored => {
                self.score.1 = self.score.1 + 1;
                out.push(
                    Outbound { to: Side::Left, msg: Message::Score(self.score.0, self.score.1) },
                );
                out.push(
                    Outbound { to: Side::Right, msg: Message::Score(self.score.0, self.score.1) },
                );
                proof {
                    assert(out@ =~= seq![
                        Outbound { to: Side::Left, msg: Message::State(game_state) },
                        Outbound { to: Side::Right, msg: Message::State(game_state) },
                        Outbound {
                            to: Side::Left,
                            msg: Message::Score(final(self).score.0, final(self).score.1),
                        },
                        Outbound {
                            to: Side::Right,
                            msg: Message::Score(final(self).score.0, final(self).score.1),
                        },
                    ]);
                }
            },
            RoundResult::NoGoal => {
                proof {
                    assert(out@ =~= seq![
                        Outbound { to: Side::Left, msg: Message::State(game_state) },
                        Outbound { to: Side::Right, msg: Message::State(game_state) },
                    ]);
                }
            },
        }
        out
    }
}

} // verus!
