//! The game record and its well-formedness invariant.
//!
//! A [`Game`] holds the complete state of one session. Its mathematical model
//! is [`GameView`]: every field widened to `int`, the two 4x4 token tables
//! flattened to a sequence of 16 positions indexed by `color * 4 + token`.
//! Players are opaque identities carried as `u64` values; `0` stands for an
//! unoccupied color slot, so a real player identity is never `0`.

use vstd::prelude::*;

verus! {

/// The four color slots, seated around the board in this order.
#[derive(Clone, Copy, PartialEq, Eq, Structural, Debug)]
pub enum Colors {
    Red,
    Green,
    Yellow,
    Blue,
}

/// The lifecycle of a game record.
///
/// `RollDice` awaits a roll request by the current player; `RollingDice` and
/// `Starting` await the delivery of requested entropy; `Move` awaits the
/// current player's token choice.
#[derive(Clone, Copy, PartialEq, Eq, Structural, Debug)]
pub enum GameState {
    NotStarted,
    Starting,
    RollDice,
    RollingDice,
    Move,
    Finished,
}

/// Every distinct rejection an action can produce.
#[derive(Clone, Copy, PartialEq, Eq, Structural, Debug)]
pub enum LudoError {
    InvalidNumPlayers,
    AnotherPlayerAlreadyJoined,
    GameAlreadyStarted,
    WrongPlayer,
    NeedToRunJoinAndStart,
    NeedToRunJoin,
    PlayerAlreadyJoined,
    ColorAlreadyTaken,
    WrongGameState,
    WrongMove,
    GameNotFinished,
}

/// One game session.
///
/// `token_positions` stores the 4 tokens of the 4 colors as a flat table of
/// 16 entries, entry `color * 4 + token`. A position is `-1` (home yard),
/// `0..=50` (the shared track in the color's local frame, `0` the color's
/// entry square), `51..=55` (the color's private home stretch) or `56`
/// (finished).
///
/// Before the game starts, `cur_player` counts the players that have joined;
/// once started it is the color index whose turn it is. Keeping the two
/// readings apart is the reason nearly every contract below is conditioned on
/// `game_state`.
#[derive(Clone, Debug)]
pub struct Game {
    pub num_players: u8,
    pub cur_player: u8,
    pub token_positions: Vec<i8>,
    pub game_state: GameState,
    pub current_roll: u8,
    pub six_count: u8,
    pub players: Vec<u64>,
    pub winner: u64,
}

/// The mathematical value of a [`Game`].
#[verifier::ext_equal]
pub struct GameView {
    pub num_players: int,
    pub cur_player: int,
    pub tokens: Seq<int>,
    pub game_state: GameState,
    pub current_roll: int,
    pub six_count: int,
    pub players: Seq<int>,
    pub winner: int,
}

impl View for Game {
    type V = GameView;

    open spec fn view(&self) -> GameView {
        GameView {
            num_players: self.num_players as int,
            cur_player: self.cur_player as int,
            tokens: self.token_positions@.map_values(|p: i8| p as int),
            game_state: self.game_state,
            current_roll: self.current_roll as int,
            six_count: self.six_count as int,
            players: self.players@.map_values(|p: u64| p as int),
            winner: self.winner as int,
        }
    }
}

impl Colors {
    /// The color's slot index: Red 0, Green 1, Yellow 2, Blue 3.
    pub open spec fn as_int(self) -> int {
        match self {
            Colors::Red => 0,
            Colors::Green => 1,
            Colors::Yellow => 2,
            Colors::Blue => 3,
        }
    }

    /// The color's slot index as a machine integer.
    pub fn index(self) -> (i: u8)
        ensures
            i as int == self.as_int(),
            i < 4,
    {
        match self {
            Colors::Red => 0,
            Colors::Green => 1,
            Colors::Yellow => 2,
            Colors::Blue => 3,
        }
    }
}

/// The flat index of `token` of color `color` in the token table.
pub open spec fn tidx(color: int, token: int) -> int {
    color * 4 + token
}

/// How many of the four color slots are occupied.
pub open spec fn joined_count(players: Seq<int>) -> int {
    (if players[0] != 0 { 1int } else { 0int }) + (if players[1] != 0 { 1int } else { 0int })
        + (if players[2] != 0 { 1int } else { 0int }) + (if players[3] != 0 {
        1int
    } else {
        0int
    })
}

/// Whether `player` occupies some color slot.
pub open spec fn player_in_game(players: Seq<int>, player: int) -> bool {
    exists|i: int| 0 <= i < 4 && players[i] == player
}

/// No identity occupies two slots.
pub open spec fn players_distinct(players: Seq<int>) -> bool {
    forall|i: int, j: int|
        0 <= i < 4 && 0 <= j < 4 && i != j && #[trigger] players[i] != 0 ==> players[i]
            != #[trigger] players[j]
}

/// The occupied slot the turn passes to from `cur`: the nearest of the next
/// three seats going around the board, or — when all three are empty — back
/// around to `cur` itself.
pub open spec fn next_occupied(players: Seq<int>, cur: int) -> int {
    if players[(cur + 1) % 4] != 0 {
        (cur + 1) % 4
    } else if players[(cur + 2) % 4] != 0 {
        (cur + 2) % 4
    } else if players[(cur + 3) % 4] != 0 {
        (cur + 3) % 4
    } else {
        (cur + 4) % 4
    }
}

/// The slot reached from `start` by passing the turn `n` times.
pub open spec fn nth_next(players: Seq<int>, start: int, n: int) -> int
    decreases n,
{
    if n <= 0 {
        start
    } else {
        next_occupied(players, nth_next(players, start, n - 1))
    }
}

impl GameView {
    /// The position of `token` of color `color`.
    pub open spec fn pos(self, color: int, token: int) -> int {
        self.tokens[tidx(color, token)]
    }

    /// The well-formedness invariant of a game record. Constructors establish
    /// it and every transition preserves it.
    pub open spec fn wf(self) -> bool {
        &&& self.players.len() == 4
        &&& self.tokens.len() == 16
        &&& (self.num_players == 2 || self.num_players == 3 || self.num_players == 4)
        &&& forall|i: int| 0 <= i < 16 ==> -1 <= #[trigger] self.tokens[i] <= 56
        &&& forall|i: int| 0 <= i < 4 ==> #[trigger] self.players[i] >= 0
        &&& 0 <= self.six_count <= 2
        &&& 0 <= self.current_roll <= 6
        &&& self.winner >= 0
        &&& players_distinct(self.players)
        &&& match self.game_state {
            GameState::NotStarted => {
                &&& self.cur_player == joined_count(self.players)
                &&& 1 <= self.cur_player
                &&& self.cur_player < self.num_players
                &&& self.winner == 0
            },
            GameState::Starting => {
                &&& joined_count(self.players) == self.num_players
                &&& self.cur_player == 0
                &&& self.winner == 0
            },
            GameState::RollDice | GameState::RollingDice => {
                &&& joined_count(self.players) == self.num_players
                &&& 0 <= self.cur_player < 4
                &&& self.players[self.cur_player] != 0
                &&& self.winner == 0
            },
            GameState::Move => {
                &&& joined_count(self.players) == self.num_players
                &&& 0 <= self.cur_player < 4
                &&& self.players[self.cur_player] != 0
                &&& self.winner == 0
                &&& 1 <= self.current_roll <= 6
                &&& !(self.six_count == 2 && self.current_roll == 6)
            },
            GameState::Finished => {
                &&& joined_count(self.players) == self.num_players
                &&& 0 <= self.cur_player < 4
                &&& self.players[self.cur_player] != 0
                &&& self.winner == self.players[self.cur_player]
            },
        }
    }
}

/// The slot the turn passes to is occupied, as long as anyone is seated.
pub proof fn lemma_next_occupied_seated(players: Seq<int>, cur: int)
    requires
        players.len() == 4,
        0 <= cur < 4,
        exists|i: int| 0 <= i < 4 && #[trigger] players[i] != 0,
    ensures
        0 <= next_occupied(players, cur) < 4,
        players[next_occupied(players, cur)] != 0,
{
    let w = choose|i: int| 0 <= i < 4 && #[trigger] players[i] != 0;
    if players[(cur + 1) % 4] == 0 && players[(cur + 2) % 4] == 0 && players[(cur + 3) % 4] == 0 {
        assert(w == (cur + 1) % 4 || w == (cur + 2) % 4 || w == (cur + 3) % 4 || w == (cur + 4)
            % 4) by {
            if cur == 0 {
            } else if cur == 1 {
            } else if cur == 2 {
            } else {
            }
        }
    }
}

impl Game {
    /// The identity seated at the color slot whose turn it is.
    pub fn cur_player_key(&self) -> (key: u64)
        requires
            self@.wf(),
        ensures
            key as int == self@.players[self@.cur_player],
    {
        self.players[self.cur_player as usize]
    }

    /// Passes the turn to the next occupied color slot, going around the
    /// board; wraps back to the current slot when no other is occupied.
    pub fn next_player(&mut self)
        requires
            old(self).players@.len() == 4,
            old(self).cur_player < 4,
            exists|i: int| 0 <= i < 4 && #[trigger] old(self)@.players[i] != 0,
        ensures
            final(self)@ =~= (GameView {
                cur_player: next_occupied(old(self)@.players, old(self)@.cur_player as int),
                ..old(self)@
            }),
            final(self).cur_player < 4,
            final(self)@.players[final(self)@.cur_player] != 0,
    {
        proof {
            lemma_next_occupied_seated(self@.players, self.cur_player as int);
        }
        let c = self.cur_player;
        let c1 = (c + 1) % 4;
        if self.players[c1 as usize] != 0 {
            self.cur_player = c1;
            return ;
        }
        let c2 = (c + 2) % 4;
        if self.players[c2 as usize] != 0 {
            self.cur_player = c2;
            return ;
        }
        let c3 = (c + 3) % 4;
        if self.players[c3 as usize] != 0 {
            self.cur_player = c3;
            return ;
        }
        assert(((c + 4) % 4) as int == (c as int + 4) % 4);
    }
}

} // verus!
