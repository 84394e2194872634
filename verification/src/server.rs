//! The matchmaker and router side of the server: latched player
//! input with tick-monotonic updates, the table of joined players and
//! running matches, and the decision step that turns one received
//! datagram into replies, routings and match starts.
//!
//! The transport layer performs the sends and spawns the match
//! workers; every decision is made here.

use std::collections::HashMap;
use vstd::prelude::*;
use crate::messages::{Addr, Direction, GameId, Message, PlayerId, PlayerMove, Side, Tick};

verus! {

broadcast use vstd::std_specs::hash::group_hash_axioms;

/// The most recently accepted key state of one player, together with
/// the tick it was accepted at.
pub struct PlayerInput {
    pub tick: Tick,
    pub up: bool,
    pub down: bool,
}

impl PlayerInput {
    /// The latched state after one arriving move: a move dated
    /// strictly newer than the stored tick overwrites the key it names
    /// and the tick; anything else changes nothing.
    pub open spec fn spec_updated(self, m: PlayerMove) -> PlayerInput {
        if m.tick > self.tick {
            match m.dir {
                Direction::Up(b) => PlayerInput { tick: m.tick, up: b, down: self.down },
                Direction::Down(b) => PlayerInput { tick: m.tick, up: self.up, down: b },
            }
        } else {
            self
        }
    }

    pub fn update(&mut self, player_move: PlayerMove)
        ensures
            *final(self) == old(self).spec_updated(player_move),
    {
        if player_move.tick > self.tick {
            self.tick = player_move.tick;
            match player_move.dir {
                Direction::Up(b) => self.up = b,
                Direction::Down(b) => self.down = b,
            }
        }
    }
}

impl Default for PlayerInput {
    fn default() -> (r: PlayerInput)
        ensures
            r == (PlayerInput { tick: 0u32, up: false, down: false }),
    {
        PlayerInput { tick: 0, up: false, down: false }
    }
}

/// The latched state after a whole drained batch, applied in arrival
/// order.
pub open spec fn apply_moves(init: PlayerInput, s: Seq<PlayerMove>) -> PlayerInput
    decreases s.len(),
{
    if s.len() == 0 {
        init
    } else {
        apply_moves(init, s.drop_last()).spec_updated(s.last())
    }
}

/// The tick latched after a batch is the initial tick or the tick of
/// one of the batch's moves, and it never decreases.
pub proof fn lemma_apply_moves_tick(init: PlayerInput, s: Seq<PlayerMove>)
    ensures
        apply_moves(init, s).tick == init.tick || exists|j: int|
            0 <= j < s.len() && apply_moves(init, s).tick == s[j].tick,
        apply_moves(init, s).tick >= init.tick,
    decreases s.len(),
{
    if s.len() > 0 {
        lemma_apply_moves_tick(init, s.drop_last());
        let p = apply_moves(init, s.drop_last());
        if p.spec_updated(s.last()).tick == s.last().tick {
            assert(apply_moves(init, s).tick == s[s.len() - 1].tick);
        }
    }
}

/// Out-of-order delivery within one drained batch does not matter:
/// when the ticks of a batch are pairwise distinct (they were sent
/// with strictly increasing ticks) and the newest of them is newer
/// than the stored tick, the latched state ends at that newest move —
/// its tick is stored and the key it names has its value — no matter
/// where in the batch it arrived.
pub proof fn lemma_latched_input_is_newest(init: PlayerInput, s: Seq<PlayerMove>, i: int)
    requires
        0 <= i < s.len(),
        forall|j: int| 0 <= j < s.len() && j != i ==> s[j].tick < s[i].tick,
        s[i].tick > init.tick,
    ensures
        apply_moves(init, s).tick == s[i].tick,
        (s[i].dir matches Direction::Up(b) ==> apply_moves(init, s).up == b),
        (s[i].dir matches Direction::Down(b) ==> apply_moves(init, s).down == b),
    decreases s.len(),
{
    let p = apply_moves(init, s.drop_last());
    if i == s.len() - 1 {
        lemma_apply_moves_tick(init, s.drop_last());
        assert(p.tick < s[i].tick);
    } else {
        lemma_latched_input_is_newest(init, s.drop_last(), i);
        assert(s.last().tick < s[i].tick);
    }
}

/// The match a player belongs to: players are paired two at a time in
/// join order.
pub fn get_game_id(player_id: PlayerId) -> (r: GameId)
    ensures
        r == player_id / 2,
{
    player_id / 2
}

/// The matchmaker's tables: the address of every joined player, keyed
/// by the ids handed out in join order, and the inbound channel of
/// every running match.
pub struct Players<C> {
    players_addr: HashMap<PlayerId, Addr>,
    pub game_thread_communication: HashMap<GameId, C>,
}

impl<C> Players<C> {
    /// Player ids are handed out densely: the table holds exactly the
    /// ids below its size.
    pub closed spec fn wf(self) -> bool {
        forall|k: PlayerId| #[trigger]
            self.players_addr@.contains_key(k) <==> (k as int) < self.players_addr@.len()
    }

    pub closed spec fn addrs(self) -> Map<PlayerId, Addr> {
        self.players_addr@
    }

    pub closed spec fn games(self) -> Map<GameId, C> {
        self.game_thread_communication@
    }

    /// Whether some joined player has this address.
    pub open spec fn spec_knows_addr(self, who: Addr) -> bool {
        exists|k: PlayerId| #[trigger] self.addrs().contains_key(k) && self.addrs()[k] == who
    }

    pub fn new() -> (r: Players<C>)
        ensures
            r.addrs() == Map::<PlayerId, Addr>::empty(),
            r.games() == Map::<GameId, C>::empty(),
            r.wf(),
    {
        Players { players_addr: HashMap::new(), game_thread_communication: HashMap::new() }
    }

    pub fn get_player_addr(&self, player_id: PlayerId) -> (r: Option<Addr>)
        ensures
            r == if self.addrs().contains_key(player_id) {
                Some(self.addrs()[player_id])
            } else {
                Option::<Addr>::None
            },
    {
        match self.players_addr.get(&player_id) {
            Some(a) => Some(*a),
            None => None,
        }
    }

    pub fn num_players(&self) -> (r: usize)
        ensures
            r == self.addrs().len(),
    {
        self.players_addr.len()
    }

    /// Record a new player under the next free id and return that id.
    pub fn add_player(&mut self, addr: Addr) -> (r: PlayerId)
        requires
            old(self).wf(),
            old(self).addrs().len() < u32::MAX,
        ensures
            r as int == old(self).addrs().len(),
            final(self).addrs() == old(self).addrs().insert(r, addr),
            final(self).addrs().len() == old(self).addrs().len() + 1,
            final(self).games() == old(self).games(),
            final(self).wf(),
    {
        let n = self.players_addr.len();
        let player_id: PlayerId = n as PlayerId;
        assert(!self.players_addr@.contains_key(player_id));
        self.players_addr.insert(player_id, addr);
        player_id
    }

    /// Whether this address already belongs to a joined player.
    pub fn knows_addr(&self, who: Addr) -> (r: bool)
        requires
            self.wf(),
            self.addrs().len() <= u32::MAX,
        ensures
            r == self.spec_knows_addr(who),
    {
        let n = self.players_addr.len();
        let mut k: usize = 0;
        while k < n
            invariant
                self.wf(),
                n == self.addrs().len(),
                k <= n,
                n <= u32::MAX,
                forall|j: PlayerId| (j as int) < k ==> #[trigger] self.addrs()[j] != who,
            decreases n - k,
        {
            let id: PlayerId = k as PlayerId;
            match self.players_addr.get(&id) {
                Some(a) => {
                    if *a == who {
                        return true;
                    }
                },
                None => {
                    vstd::pervasive::unreached::<()>();
                },
            }
            k = k + 1;
        }
        false
    }

    /// A completed pair, evaluated after each admission: when the
    /// count has just become even, the two newest players form a
    /// match, the earlier joiner on the left.
    pub fn is_ready(&self) -> (r: Option<(PlayerId, PlayerId)>)
        requires
            self.addrs().len() <= u32::MAX,
        ensures
            r == if self.addrs().len() >= 2 && self.addrs().len() % 2 == 0 {
                Some(
                    (
                        (self.addrs().len() - 2) as PlayerId,
                        (self.addrs().len() - 1) as PlayerId,
                    ),
                )
            } else {
                Option::<(PlayerId, PlayerId)>::None
            },
    {
        let n: usize = self.players_addr.len();
        if n >= 2 && n % 2 == 0 {
            Some(((n - 2) as PlayerId, (n - 1) as PlayerId))
        } else {
            None
        }
    }

    /// Register the inbound channel of a newly started match.
    pub fn add_game(&mut self, game_id: GameId, msg_send: C)
        ensures
            final(self).games() == old(self).games().insert(game_id, msg_send),
            final(self).addrs() == old(self).addrs(),
            old(self).wf() ==> final(self).wf(),
    {
        self.game_thread_communication.insert(game_id, msg_send);
    }

    /// Drop a finished match from the registry, handing back its
    /// channel; afterwards nothing can be routed to it.
    pub fn remove_game(&mut self, game_id: GameId) -> (r: Option<C>)
        ensures
            final(self).games() == old(self).games().remove(game_id),
            final(self).addrs() == old(self).addrs(),
            old(self).wf() ==> final(self).wf(),
            r matches Some(c) ==> old(self).games().contains_key(game_id) && c == old(
                self,
            ).games()[game_id],
            r is None ==> !old(self).games().contains_key(game_id),
    {
        self.game_thread_communication.remove(&game_id)
    }

    /// The inbound channel of a running match; a message for an
    /// unknown match means a stale or forged player id, and the caller
    /// treats it as an invariant violation.
    pub fn game_channel(&self, game_id: GameId) -> (r: Option<&C>)
        ensures
            match r {
                Some(c) => self.games().contains_key(game_id) && *c == self.games()[game_id],
                None => !self.games().contains_key(game_id),
            },
    {
        self.game_thread_communication.get(&game_id)
    }
}

/// What the transport layer must do after one received datagram.
#[derive(Clone, Copy, Debug, PartialEq, Eq, Structural)]
pub enum ServerAction {
    /// Send this message to this address.
    Reply(Addr, Message),
    /// Spawn a match worker for this pair and register its channel.
    StartGame {
        game_id: GameId,
        left_id: PlayerId,
        right_id: PlayerId,
        left_addr: Addr,
        right_addr: Addr,
    },
    /// Forward this message into the running match's channel.
    RouteToGame(GameId, Message),
    /// Ask the supervisor to join and drop this match's worker.
    EndGame(GameId),
}

/// One step of the matchmaker/router loop: classify a received
/// message and produce the actions the transport layer must carry
/// out, updating the player table on a join.
///
/// A join from a new address is admitted under the next id, sides
/// alternating left-right in arrival order, and completes a match
/// whenever it makes the count even; a join from a known address and
/// any unrecognized message are rejected. Moves and session ends are
/// routed to the match derived from the player id.
pub fn server_step<C>(players: &mut Players<C>, msg: Message, who: Addr) -> (r: Vec<ServerAction>)
    requires
        old(players).wf(),
        old(players).addrs().len() + 2 < u32::MAX,
    ensures
        final(players).wf(),
        final(players).games() == old(players).games(),
        msg is Join && old(players).spec_knows_addr(who) ==> {
            &&& r@ == seq![ServerAction::Reply(who, Message::Taken)]
            &&& final(players).addrs() == old(players).addrs()
        },
        msg is Join && !old(players).spec_knows_addr(who) ==> {
            let id = old(players).addrs().len() as PlayerId;
            let side = if id % 2 == 0 {
                Side::Left
            } else {
                Side::Right
            };
            &&& final(players).addrs() == old(players).addrs().insert(id, who)
            &&& (id % 2 == 1 ==> r@ == seq![
                ServerAction::Reply(who, Message::Accepted(side, id)),
                ServerAction::StartGame {
                    game_id: (id / 2) as GameId,
                    left_id: (id - 1) as PlayerId,
                    right_id: id,
                    left_addr: old(players).addrs()[(id - 1) as PlayerId],
                    right_addr: who,
                },
            ])
            &&& (id % 2 == 0 ==> r@ == seq![
                ServerAction::Reply(who, Message::Accepted(side, id)),
            ])
        },
        msg matches Message::EndingGame(pid) ==> {
            &&& r@ == seq![
                ServerAction::EndGame((pid / 2) as GameId),
                ServerAction::RouteToGame((pid / 2) as GameId, msg),
            ]
            &&& final(players).addrs() == old(players).addrs()
        },
        msg matches Message::Move(pm) ==> {
            &&& r@ == seq![ServerAction::RouteToGame((pm.player_id / 2) as GameId, msg)]
            &&& final(players).addrs() == old(players).addrs()
        },
        !(msg is Join) && !(msg is EndingGame) && !(msg is Move) ==> {
            &&& r@ == seq![ServerAction::Reply(who, Message::Taken)]
            &&& final(players).addrs() == old(players).addrs()
        },
{
    let mut actions: Vec<ServerAction> = Vec::new();
    match msg {
        Message::Join => {
            if players.knows_addr(who) {
                actions.push(ServerAction::Reply(who, Message::Taken));
            } else {
                let player_id = players.add_player(who);
                let side = if player_id % 2 == 0 {
                    Side::Left
                } else {
                    Side::Right
                };
                actions.push(ServerAction::Reply(who, Message::Accepted(side, player_id)));
                if let Some((left, right)) = players.is_ready() {
                    let game_id = get_game_id(left);
                    let left_addr = match players.get_player_addr(left) {
                        Some(a) => a,
                        None => vstd::pervasive::unreached(),
                    };
                    let right_addr = match players.get_player_addr(right) {
                        Some(a) => a,
                        None => vstd::pervasive::unreached(),
                    };
                    actions.push(
                        ServerAction::StartGame {
                            game_id,
                            left_id: left,
                            right_id: right,
                            left_addr,
                            right_addr,
                        },
                    );
                }
            }
        },
        Message::EndingGame(player_id) => {
            let game_id = get_game_id(player_id);
            actions.push(ServerAction::EndGame(game_id));
            actions.push(ServerAction::RouteToGame(game_id, msg));
        },
        Message::Move(player_move) => {
            actions.push(ServerAction::RouteToGame(get_game_id(player_move.player_id), msg));
        },
        _ => {
            actions.push(ServerAction::Reply(who, Message::Taken));
        },
    }
    actions
}

} // verus!
