//! The state transitions: join and start, roll, move, capture, win.
//!
//! Each action has a specification-level transition function from a
//! [`GameView`] to either the next view or the exact rejection, and an
//! executable method on [`Game`] whose contract says the record ends up at
//! that transition's result — unchanged whenever the action is rejected.
//! Callers are identified by an opaque `u64` identity that the hosting
//! environment authenticates; a real identity is never `0`.

use vstd::prelude::*;
use crate::game::{
    Colors, Game, GameState, GameView, LudoError, joined_count, next_occupied, nth_next,
    player_in_game, tidx,
};

verus! {

/// The game record a creator with `num_players` seats obtains, before any
/// other player has joined: the creator on `color`, every token in the home
/// yard, and the join count at one.
pub open spec fn create_game_spec(num_players: int, color: int, creator: int) -> Result<
    GameView,
    LudoError,
> {
    if num_players != 2 && num_players != 3 && num_players != 4 {
        Err(LudoError::InvalidNumPlayers)
    } else {
        Ok(
            GameView {
                num_players,
                cur_player: 1,
                tokens: Seq::new(16, |i: int| -1int),
                game_state: GameState::NotStarted,
                current_roll: 0,
                six_count: 0,
                players: Seq::new(4, |i: int| if i == color { creator } else { 0int }),
                winner: 0,
            },
        )
    }
}

/// Whether the creator may cancel the game: nobody else has joined yet and
/// the caller owns `color`'s slot. Cancelling destroys the record, so there
/// is no next view; the host tears the record down on `Ok`.
pub open spec fn cancel_game_spec(v: GameView, player: int, color: int) -> Result<(), LudoError> {
    if v.game_state != GameState::NotStarted {
        Err(LudoError::GameAlreadyStarted)
    } else if v.cur_player != 1 {
        Err(LudoError::AnotherPlayerAlreadyJoined)
    } else if v.players[color] != player {
        Err(LudoError::WrongPlayer)
    } else {
        Ok(())
    }
}

/// Whether the game record may be closed and torn down: only after the
/// game has completed. There is no next view; the host destroys the record
/// on `Ok`.
pub open spec fn close_game_spec(v: GameView) -> Result<(), LudoError> {
    if v.game_state != GameState::Finished {
        Err(LudoError::GameNotFinished)
    } else {
        Ok(())
    }
}

/// One join that is not the last one needed: the caller takes a free color
/// slot and the join count rises.
pub open spec fn join_game_spec(v: GameView, player: int, color: int) -> Result<
    GameView,
    LudoError,
> {
    if v.game_state != GameState::NotStarted {
        Err(LudoError::GameAlreadyStarted)
    } else if !(v.cur_player + 1 < v.num_players) {
        Err(LudoError::NeedToRunJoinAndStart)
    } else if player_in_game(v.players, player) {
        Err(LudoError::PlayerAlreadyJoined)
    } else if v.players[color] != 0 {
        Err(LudoError::ColorAlreadyTaken)
    } else {
        Ok(
            GameView {
                players: v.players.update(color, player),
                cur_player: v.cur_player + 1,
                ..v
            },
        )
    }
}

/// The last join needed: the caller takes a free color slot and the game
/// moves to `Starting`, awaiting the entropy that picks who goes first.
pub open spec fn join_and_start_game_spec(v: GameView, player: int, color: int) -> Result<
    GameView,
    LudoError,
> {
    if v.game_state != GameState::NotStarted {
        Err(LudoError::GameAlreadyStarted)
    } else if v.cur_player + 1 != v.num_players {
        Err(LudoError::NeedToRunJoin)
    } else if player_in_game(v.players, player) {
        Err(LudoError::PlayerAlreadyJoined)
    } else if v.players[color] != 0 {
        Err(LudoError::ColorAlreadyTaken)
    } else {
        Ok(
            GameView {
                players: v.players.update(color, player),
                cur_player: 0,
                game_state: GameState::Starting,
                ..v
            },
        )
    }
}

/// Where the first turn lands when the delivered entropy says to pass the
/// turn `steps` times: the count starts from slot 0, or from the first
/// occupied slot after it when slot 0 is empty.
pub open spec fn start_turn_spec(v: GameView, steps: int) -> GameView {
    let base = if v.players[v.cur_player] != 0 {
        v.cur_player
    } else {
        next_occupied(v.players, v.cur_player)
    };
    GameView { cur_player: nth_next(v.players, base, steps), game_state: GameState::RollDice, ..v }
}

/// The current player asks for a roll: the record locks until the entropy
/// arrives.
pub open spec fn roll_dice_spec(v: GameView, player: int) -> Result<GameView, LudoError> {
    if v.game_state != GameState::RollDice {
        Err(LudoError::WrongGameState)
    } else if v.players[v.cur_player] != player {
        Err(LudoError::WrongPlayer)
    } else {
        Ok(GameView { game_state: GameState::RollingDice, ..v })
    }
}

/// Whether a token at position `p` can act on a roll: a token in the home
/// yard enters only on a six, a finished token never moves, and no move may
/// pass the center at 56.
pub open spec fn movable(p: int, roll: int) -> bool {
    !((p == -1 && roll != 6) || p == 56) && p + roll <= 56
}

/// Whether the current player has any legal move with `roll`.
pub open spec fn has_any_move(v: GameView, roll: int) -> bool {
    ||| movable(v.pos(v.cur_player, 0), roll)
    ||| movable(v.pos(v.cur_player, 1), roll)
    ||| movable(v.pos(v.cur_player, 2), roll)
    ||| movable(v.pos(v.cur_player, 3), roll)
}

/// Whether a delivered roll forfeits the turn: a third consecutive six
/// always does, and so does having no legal move.
pub open spec fn skip_turn(v: GameView, roll: int) -> bool {
    (roll == 6 && v.six_count == 2) || !has_any_move(v, roll)
}

/// What a delivered roll does: either the turn is forfeited — streak reset,
/// turn passed, back to awaiting a roll — or the roll is recorded and the
/// player must move.
pub open spec fn apply_roll_spec(v: GameView, roll: int) -> GameView {
    if skip_turn(v, roll) {
        GameView {
            six_count: 0,
            cur_player: next_occupied(v.players, v.cur_player),
            game_state: GameState::RollDice,
            ..v
        }
    } else {
        GameView { current_roll: roll, game_state: GameState::Move, ..v }
    }
}

/// Bringing a token from the home yard onto the entry square: needs the
/// current roll to be a six and the streak below two. The same player keeps
/// the turn. Two rule choices are deliberate here: entering consumes no
/// streak increment — the streak counts only advancing moves — and no
/// capture is resolved on the entry square (which is safe in any case).
/// A token index outside `0..=3` is rejected like any other illegal move.
pub open spec fn token_into_play_spec(v: GameView, player: int, token: int) -> Result<
    GameView,
    LudoError,
> {
    if v.game_state != GameState::Move {
        Err(LudoError::WrongGameState)
    } else if v.players[v.cur_player] != player {
        Err(LudoError::WrongPlayer)
    } else if v.current_roll != 6 {
        Err(LudoError::WrongMove)
    } else if v.six_count >= 2 {
        Err(LudoError::WrongMove)
    } else if !(0 <= token < 4) {
        Err(LudoError::WrongMove)
    } else if v.pos(v.cur_player, token) != -1 {
        Err(LudoError::WrongMove)
    } else {
        Ok(
            GameView {
                tokens: v.tokens.update(tidx(v.cur_player, token), 0),
                game_state: GameState::RollDice,
                ..v
            },
        )
    }
}

/// The eight local-frame squares a token cannot be captured on.
pub open spec fn is_safe(p: int) -> bool {
    p == 0 || p == 13 || p == 26 || p == 39 || p == 8 || p == 21 || p == 34 || p == 47
}

/// Whether an attacker of color `cur` landing on its local square `a`
/// stands on the same absolute square of the 52-square shared track as a
/// defender of color `def` holding its local square `d`. Each seating step
/// offsets a color's local frame by 13 absolute squares, so `a` is carried
/// into the defender's frame by adding `((cur - def) mod 4) * 13` and
/// reducing modulo the track length.
pub open spec fn same_absolute_square(cur: int, a: int, def: int, d: int) -> bool {
    (a + ((cur - def + 4) % 4) * 13) % 52 == d
}

/// Whether the capture scan collides at flat cell `k`: the cell belongs to
/// another, occupied color, holds a token on the shared track — neither in
/// the home yard nor on its private home stretch — and that token stands on
/// the attacker's absolute square.
pub open spec fn hit_cell(v: GameView, cur: int, a: int, k: int) -> bool {
    &&& k / 4 != cur
    &&& v.players[k / 4] != 0
    &&& 0 <= v.tokens[k] <= 50
    &&& same_absolute_square(cur, a, k / 4, v.tokens[k])
}

/// The first colliding cell at or after `k`, scanning colors in seating
/// order and each color's tokens in index order.
pub open spec fn first_hit(v: GameView, cur: int, a: int, k: int) -> Option<int>
    decreases 16 - k,
{
    if !(0 <= k < 16) {
        Option::None
    } else if hit_cell(v, cur, a, k) {
        Option::Some(k)
    } else {
        first_hit(v, cur, a, k + 1)
    }
}

/// A found collision lies within the table and really collides.
pub proof fn lemma_first_hit_bounds(v: GameView, cur: int, a: int, k0: int)
    ensures
        match first_hit(v, cur, a, k0) {
            Option::Some(k) => k0 <= k < 16 && hit_cell(v, cur, a, k),
            Option::None => true,
        },
    decreases 16 - k0,
{
    if 0 <= k0 < 16 && !hit_cell(v, cur, a, k0) {
        lemma_first_hit_bounds(v, cur, a, k0 + 1);
    }
}

/// Whether the token at cell `k` stands stacked with another token of its
/// own color: a block, immune to capture.
pub open spec fn has_block_at(v: GameView, k: int) -> bool {
    let c = k / 4;
    let t = k % 4;
    ||| (t != 0 && v.tokens[tidx(c, 0)] == v.tokens[k])
    ||| (t != 1 && v.tokens[tidx(c, 1)] == v.tokens[k])
    ||| (t != 2 && v.tokens[tidx(c, 2)] == v.tokens[k])
    ||| (t != 3 && v.tokens[tidx(c, 3)] == v.tokens[k])
}

/// How landing on local square `a` resolves. A safe square, or a square on
/// the mover's home stretch, captures nothing. Otherwise the first
/// colliding defender token is sent home — unless it is part of a block, in
/// which case the attacker's moved token is sent home instead.
pub open spec fn capture_spec(v: GameView, cur: int, token: int, a: int) -> GameView {
    if is_safe(a) || a >= 51 {
        v
    } else {
        match first_hit(v, cur, a, 0) {
            Option::None => v,
            Option::Some(k) => if has_block_at(v, k) {
                GameView { tokens: v.tokens.update(tidx(cur, token), -1), ..v }
            } else {
                GameView { tokens: v.tokens.update(k, -1), ..v }
            },
        }
    }
}

/// Whether all four tokens of color `c` have reached the center.
pub open spec fn all_home(v: GameView, c: int) -> bool {
    v.pos(c, 0) == 56 && v.pos(c, 1) == 56 && v.pos(c, 2) == 56 && v.pos(c, 3) == 56
}

/// The local square the current player's `token` lands on with the current
/// roll.
pub open spec fn landing_square(v: GameView, token: int) -> int {
    v.pos(v.cur_player, token) + v.current_roll
}

/// The view right after the current player's `token` is written to its
/// landing square, before capture and win resolve.
pub open spec fn moved_view(v: GameView, token: int) -> GameView {
    GameView {
        tokens: v.tokens.update(tidx(v.cur_player, token), landing_square(v, token)),
        ..v
    }
}

/// Advancing one token by the current roll. After the legality checks the
/// token moves; if that completes all four of the mover's tokens the game
/// finishes at once with the mover as winner — no capture, no turn
/// bookkeeping. Otherwise the landing resolves per [`capture_spec`], and the
/// turn either stays with the mover (a six, streak rising) or passes on
/// (streak reset). A token index outside `0..=3` is rejected like any other
/// illegal move.
pub open spec fn make_move_spec(v: GameView, player: int, token: int) -> Result<
    GameView,
    LudoError,
> {
    if v.game_state != GameState::Move {
        Err(LudoError::WrongGameState)
    } else if v.players[v.cur_player] != player {
        Err(LudoError::WrongPlayer)
    } else if !((v.six_count == 2 && v.current_roll != 6) || v.six_count < 2) {
        Err(LudoError::WrongMove)
    } else if !(0 <= token < 4) {
        Err(LudoError::WrongMove)
    } else if v.pos(v.cur_player, token) == -1 {
        Err(LudoError::WrongMove)
    } else if v.pos(v.cur_player, token) + v.current_roll > 56 {
        Err(LudoError::WrongMove)
    } else {
        let a = landing_square(v, token);
        let moved = moved_view(v, token);
        if all_home(moved, v.cur_player) {
            Ok(
                GameView {
                    game_state: GameState::Finished,
                    winner: v.players[v.cur_player],
                    ..moved
                },
            )
        } else {
            let fought = capture_spec(moved, v.cur_player, token, a);
            if v.current_roll == 6 {
                Ok(
                    GameView {
                        six_count: v.six_count + 1,
                        game_state: GameState::RollDice,
                        ..fought
                    },
                )
            } else {
                Ok(
                    GameView {
                        six_count: 0,
                        cur_player: next_occupied(v.players, v.cur_player),
                        game_state: GameState::RollDice,
                        ..fought
                    },
                )
            }
        }
    }
}

impl Game {
    /// Whether `player` already occupies one of the four color slots.
    fn contains_player(&self, player: u64) -> (b: bool)
        requires
            self.players@.len() == 4,
        ensures
            b == player_in_game(self@.players, player as int),
    {
        let b = self.players[0] == player || self.players[1] == player || self.players[2]
            == player || self.players[3] == player;
        proof {
            assert(self@.players[0] == self.players@[0] as int);
            assert(self@.players[1] == self.players@[1] as int);
            assert(self@.players[2] == self.players@[2] as int);
            assert(self@.players[3] == self.players@[3] as int);
            if !b {
                assert forall|i: int| 0 <= i < 4 implies self@.players[i] != player as int by {
                    assert(i == 0 || i == 1 || i == 2 || i == 3);
                }
            }
        }
        b
    }

    /// Creates the game record: fixes the number of seats, seats the creator
    /// on `color`, and awaits the remaining joins.
    pub fn create_game(num_players: u8, color: Colors, creator: u64) -> (r: Result<
        Game,
        LudoError,
    >)
        requires
            creator != 0,
        ensures
            ({
                let s = create_game_spec(num_players as int, color.as_int(), creator as int);
                match r {
                    Ok(g) => s matches Ok(v) && g@ =~= v && g@.wf(),
                    Err(e) => s == Err::<GameView, LudoError>(e),
                }
            }),
    {
        if !(num_players == 2 || num_players == 3 || num_players == 4) {
            return Err(LudoError::InvalidNumPlayers);
        }
        let mut players: Vec<u64> = vec![0, 0, 0, 0];
        let ci = color.index() as usize;
        players[ci] = creator;
        let token_positions: Vec<i8> = vec![
            -1,
            -1,
            -1,
            -1,
            -1,
            -1,
            -1,
            -1,
            -1,
            -1,
            -1,
            -1,
            -1,
            -1,
            -1,
            -1,
        ];
        let g = Game {
            num_players,
            cur_player: 1,
            token_positions,
            game_state: GameState::NotStarted,
            current_roll: 0,
            six_count: 0,
            players,
            winner: 0,
        };
        proof {
            assert(g@.tokens =~= Seq::new(16, |i: int| -1int));
            assert(g@.players =~= Seq::new(
                4,
                |i: int| if i == color.as_int() { creator as int } else { 0int },
            ));
        }
        Ok(g)
    }

    /// Validates a cancellation: only the creator, alone in the game, before
    /// it starts. The host destroys the record on `Ok`; the record itself is
    /// not written.
    pub fn cancel_game(&self, player: u64, color: Colors) -> (r: Result<(), LudoError>)
        requires
            self@.wf(),
        ensures
            r == cancel_game_spec(self@, player as int, color.as_int()),
    {
        if self.game_state != GameState::NotStarted {
            return Err(LudoError::GameAlreadyStarted);
        }
        if self.cur_player != 1 {
            return Err(LudoError::AnotherPlayerAlreadyJoined);
        }
        if self.players[color.index() as usize] != player {
            return Err(LudoError::WrongPlayer);
        }
        Ok(())
    }

    /// Validates closing the game record after completion: closing early is
    /// rejected. The host destroys the record on `Ok`; the record itself is
    /// not written.
    pub fn close_game(&self) -> (r: Result<(), LudoError>)
        ensures
            r == close_game_spec(self@),
    {
        if self.game_state != GameState::Finished {
            return Err(LudoError::GameNotFinished);
        }
        Ok(())
    }

    /// One join that is not the last one needed; see [`join_game_spec`].
    pub fn join_game(&mut self, player: u64, color: Colors) -> (r: Result<(), LudoError>)
        requires
            old(self)@.wf(),
            player != 0,
        ensures
            final(self)@.wf(),
            ({
                let s = join_game_spec(old(self)@, player as int, color.as_int());
                match r {
                    Ok(()) => s matches Ok(v) && final(self)@ =~= v,
                    Err(e) => s == Err::<GameView, LudoError>(e) && final(self)@ =~= old(self)@,
                }
            }),
    {
        if self.game_state != GameState::NotStarted {
            return Err(LudoError::GameAlreadyStarted);
        }
        if !(self.cur_player + 1 < self.num_players) {
            return Err(LudoError::NeedToRunJoinAndStart);
        }
        if self.contains_player(player) {
            return Err(LudoError::PlayerAlreadyJoined);
        }
        let ci = color.index() as usize;
        if self.players[ci] != 0 {
            return Err(LudoError::ColorAlreadyTaken);
        }
        self.players[ci] = player;
        self.cur_player = self.cur_player + 1;
        proof {
            assert(self@.players =~= old(self)@.players.update(color.as_int(), player as int));
        }
        Ok(())
    }

    /// The last join needed; the game moves to `Starting` and the host
    /// issues the turn-order randomness request. See
    /// [`join_and_start_game_spec`].
    pub fn join_and_start_game(&mut self, player: u64, color: Colors) -> (r: Result<
        (),
        LudoError,
    >)
        requires
            old(self)@.wf(),
            player != 0,
        ensures
            final(self)@.wf(),
            ({
                let s = join_and_start_game_spec(old(self)@, player as int, color.as_int());
                match r {
                    Ok(()) => s matches Ok(v) && final(self)@ =~= v,
                    Err(e) => s == Err::<GameView, LudoError>(e) && final(self)@ =~= old(self)@,
                }
            }),
    {
        if self.game_state != GameState::NotStarted {
            return Err(LudoError::GameAlreadyStarted);
        }
        if self.cur_player + 1 != self.num_players {
            return Err(LudoError::NeedToRunJoin);
        }
        if self.contains_player(player) {
            return Err(LudoError::PlayerAlreadyJoined);
        }
        let ci = color.index() as usize;
        if self.players[ci] != 0 {
            return Err(LudoError::ColorAlreadyTaken);
        }
        self.players[ci] = player;
        self.cur_player = 0;
        self.game_state = GameState::Starting;
        proof {
            assert(self@.players =~= old(self)@.players.update(color.as_int(), player as int));
        }
        Ok(())
    }
}

/// Whether a token at position `p` can act on `roll`; see [`movable`].
fn movable_exec(p: i8, roll: u8) -> (b: bool)
    requires
        -1 <= p <= 56,
        1 <= roll <= 6,
    ensures
        b == movable(p as int, roll as int),
{
    !((p == -1 && roll != 6) || p == 56) && p + (roll as i8) <= 56
}

impl Game {
    /// The current player asks for a roll; the record locks until the
    /// entropy arrives. See [`roll_dice_spec`].
    pub fn roll_dice_delegate(&mut self, player: u64) -> (r: Result<(), LudoError>)
        requires
            old(self)@.wf(),
        ensures
            final(self)@.wf(),
            ({
                let s = roll_dice_spec(old(self)@, player as int);
                match r {
                    Ok(()) => s matches Ok(v) && final(self)@ =~= v,
                    Err(e) => s == Err::<GameView, LudoError>(e) && final(self)@ =~= old(self)@,
                }
            }),
    {
        if self.game_state != GameState::RollDice {
            return Err(LudoError::WrongGameState);
        }
        if self.cur_player_key() != player {
            return Err(LudoError::WrongPlayer);
        }
        self.game_state = GameState::RollingDice;
        Ok(())
    }

    /// Consumes a delivered roll: either the turn is forfeited — a third
    /// consecutive six, or no legal move — or the roll is recorded and the
    /// player must move. See [`apply_roll_spec`].
    pub fn apply_roll(&mut self, roll: u8)
        requires
            old(self)@.wf(),
            old(self)@.game_state is RollingDice,
            1 <= roll <= 6,
        ensures
            final(self)@.wf(),
            final(self)@ =~= apply_roll_spec(old(self)@, roll as int),
    {
        let cur = self.cur_player;
        let base = (cur as usize) * 4;
        let p0 = self.token_positions[base];
        let p1 = self.token_positions[base + 1];
        let p2 = self.token_positions[base + 2];
        let p3 = self.token_positions[base + 3];
        let can = movable_exec(p0, roll) || movable_exec(p1, roll) || movable_exec(p2, roll)
            || movable_exec(p3, roll);
        proof {
            assert(p0 as int == old(self)@.pos(cur as int, 0));
            assert(p1 as int == old(self)@.pos(cur as int, 1));
            assert(p2 as int == old(self)@.pos(cur as int, 2));
            assert(p3 as int == old(self)@.pos(cur as int, 3));
        }
        if (roll == 6 && self.six_count == 2) || !can {
            self.six_count = 0;
            proof {
                assert(self@.players[cur as int] != 0);
            }
            self.next_player();
            self.game_state = GameState::RollDice;
        } else {
            self.current_roll = roll;
            self.game_state = GameState::Move;
        }
    }

    /// Consumes the entropy delivered for a requested roll; the roll value
    /// is the exact function of the bytes stated by
    /// [`crate::rng::vrf_value_in_range`].
    pub fn callback_roll_dice(&mut self, randomness: &[u8; 32]) -> (r: Result<(), LudoError>)
        requires
            old(self)@.wf(),
            old(self)@.game_state is RollingDice,
        ensures
            final(self)@.wf(),
            r == Ok::<(), LudoError>(()),
            final(self)@ =~= apply_roll_spec(
                old(self)@,
                crate::rng::vrf_value_in_range(randomness@, 1, 6),
            ),
    {
        let roll = crate::rng::random_u8_in_range(randomness, 1, 6);
        proof {
            crate::rng::lemma_vrf_value_in_range(randomness@, 1, 6);
        }
        self.apply_roll(roll);
        Ok(())
    }

    /// Seats the first turn: passes the turn `steps` times from slot 0 (or
    /// from the first occupied slot after it when slot 0 is empty) and opens
    /// the game for rolling. See [`start_turn_spec`].
    pub fn apply_start_turn(&mut self, steps: u8)
        requires
            old(self)@.wf(),
            old(self)@.game_state is Starting,
        ensures
            final(self)@.wf(),
            final(self)@ =~= start_turn_spec(old(self)@, steps as int),
    {
        proof {
            if self@.players[1] != 0 {
                assert(exists|i: int| 0 <= i < 4 && #[trigger] self@.players[i] != 0);
            } else if self@.players[2] != 0 {
                assert(exists|i: int| 0 <= i < 4 && #[trigger] self@.players[i] != 0);
            } else if self@.players[3] != 0 {
                assert(exists|i: int| 0 <= i < 4 && #[trigger] self@.players[i] != 0);
            } else if self@.players[0] != 0 {
                assert(exists|i: int| 0 <= i < 4 && #[trigger] self@.players[i] != 0);
            } else {
                assert(joined_count(self@.players) == 0);
                assert(false);
            }
        }
        if self.cur_player_key() == 0 {
            self.next_player();
        }
        let ghost base = if old(self)@.players[old(self)@.cur_player] != 0 {
            old(self)@.cur_player
        } else {
            next_occupied(old(self)@.players, old(self)@.cur_player)
        };
        assert(self@ =~= (GameView { cur_player: nth_next(old(self)@.players, base, 0), ..old(
            self,
        )@ }));
        let mut i: u8 = 0;
        while i < steps
            invariant
                i <= steps,
                old(self)@.wf(),
                self.players@.len() == 4,
                self.cur_player < 4,
                self@.players[self@.cur_player] != 0,
                self@ =~= (GameView {
                    cur_player: nth_next(old(self)@.players, base, i as int),
                    ..old(self)@
                }),
            decreases steps - i,
        {
            self.next_player();
            i = i + 1;
        }
        self.game_state = GameState::RollDice;
    }

    /// Consumes the entropy delivered for the start of the game; who goes
    /// first is the exact function of the bytes stated by
    /// [`crate::rng::vrf_value_in_range`].
    pub fn callback_start_game(&mut self, randomness: &[u8; 32]) -> (r: Result<(), LudoError>)
        requires
            old(self)@.wf(),
            old(self)@.game_state is Starting,
        ensures
            final(self)@.wf(),
            r == Ok::<(), LudoError>(()),
            final(self)@ =~= start_turn_spec(
                old(self)@,
                crate::rng::vrf_value_in_range(randomness@, 0, old(self)@.num_players - 1),
            ),
    {
        let max = self.num_players - 1;
        let steps = crate::rng::random_u8_in_range(randomness, 0, max);
        proof {
            crate::rng::lemma_vrf_value_in_range(randomness@, 0, max as int);
        }
        self.apply_start_turn(steps);
        Ok(())
    }

    /// Brings a token from the home yard onto the entry square. See
    /// [`token_into_play_spec`].
    pub fn token_into_play(&mut self, player: u64, token_num: u8) -> (r: Result<(), LudoError>)
        requires
            old(self)@.wf(),
        ensures
            final(self)@.wf(),
            ({
                let s = token_into_play_spec(old(self)@, player as int, token_num as int);
                match r {
                    Ok(()) => s matches Ok(v) && final(self)@ =~= v,
                    Err(e) => s == Err::<GameView, LudoError>(e) && final(self)@ =~= old(self)@,
                }
            }),
    {
        if self.game_state != GameState::Move {
            return Err(LudoError::WrongGameState);
        }
        let cur = self.cur_player;
        if self.players[cur as usize] != player {
            return Err(LudoError::WrongPlayer);
        }
        if self.current_roll != 6 {
            return Err(LudoError::WrongMove);
        }
        if self.six_count >= 2 {
            return Err(LudoError::WrongMove);
        }
        if token_num >= 4 {
            return Err(LudoError::WrongMove);
        }
        let idx = (cur as usize) * 4 + (token_num as usize);
        if self.token_positions[idx] != -1 {
            return Err(LudoError::WrongMove);
        }
        self.token_positions[idx] = 0;
        self.game_state = GameState::RollDice;
        proof {
            assert(self@.tokens =~= old(self)@.tokens.update(
                tidx(cur as int, token_num as int),
                0int,
            ));
        }
        Ok(())
    }
}

/// Whether `p` is one of the eight safe squares; see [`is_safe`].
fn is_safe_square(p: i8) -> (b: bool)
    ensures
        b == is_safe(p as int),
{
    p == 0 || p == 13 || p == 26 || p == 39 || p == 8 || p == 21 || p == 34 || p == 47
}

impl Game {
    /// The first cell the capture scan collides at for a landing on local
    /// square `a`, if any; see [`first_hit`].
    fn find_first_hit(&self, cur: u8, a: i8) -> (r: Option<usize>)
        requires
            self@.wf(),
            cur < 4,
            1 <= a < 51,
        ensures
            match r {
                Some(k) => k < 16 && first_hit(self@, cur as int, a as int, 0) == Some(k as int),
                None => first_hit(self@, cur as int, a as int, 0) is None,
            },
    {
        let mut k: usize = 0;
        while k < 16
            invariant
                k <= 16,
                self@.wf(),
                cur < 4,
                1 <= a < 51,
                first_hit(self@, cur as int, a as int, 0) == first_hit(
                    self@,
                    cur as int,
                    a as int,
                    k as int,
                ),
            decreases 16 - k,
        {
            let def = (k / 4) as u8;
            let d = self.token_positions[k];
            let mut hit = false;
            if def != cur && self.players[def as usize] != 0 && d >= 0 && d <= 50 {
                let off = (((cur + 4 - def) % 4) * 13) as i8;
                hit = (a + off) % 52 == d;
            }
            proof {
                assert(hit == hit_cell(self@, cur as int, a as int, k as int));
            }
            if hit {
                return Some(k);
            }
            k = k + 1;
        }
        None
    }

    /// Whether the token at cell `k` is part of a block; see
    /// [`has_block_at`].
    fn has_block(&self, k: usize) -> (b: bool)
        requires
            self@.wf(),
            k < 16,
        ensures
            b == has_block_at(self@, k as int),
    {
        let c = k / 4;
        let t = k % 4;
        let d = self.token_positions[k];
        let b = (t != 0 && self.token_positions[c * 4] == d) || (t != 1 && self.token_positions[c
            * 4 + 1] == d) || (t != 2 && self.token_positions[c * 4 + 2] == d) || (t != 3
            && self.token_positions[c * 4 + 3] == d);
        proof {
            assert(self@.tokens[(c * 4) as int] == self.token_positions@[(c * 4) as int] as int);
            assert(self@.tokens[(c * 4 + 1) as int] == self.token_positions@[(c * 4 + 1) as int] as int);
            assert(self@.tokens[(c * 4 + 2) as int] == self.token_positions@[(c * 4 + 2) as int] as int);
            assert(self@.tokens[(c * 4 + 3) as int] == self.token_positions@[(c * 4 + 3) as int] as int);
        }
        b
    }

    /// Advances a token by the current roll, resolving capture, block and
    /// win; see [`make_move_spec`].
    pub fn make_move(&mut self, player: u64, token_num: u8) -> (r: Result<(), LudoError>)
        requires
            old(self)@.wf(),
        ensures
            final(self)@.wf(),
            ({
                let s = make_move_spec(old(self)@, player as int, token_num as int);
                match r {
                    Ok(()) => s matches Ok(v) && final(self)@ =~= v,
                    Err(e) => s == Err::<GameView, LudoError>(e) && final(self)@ =~= old(self)@,
                }
            }),
    {
        if self.game_state != GameState::Move {
            return Err(LudoError::WrongGameState);
        }
        let cur = self.cur_player;
        if self.players[cur as usize] != player {
            return Err(LudoError::WrongPlayer);
        }
        if !((self.six_count == 2 && self.current_roll != 6) || self.six_count < 2) {
            return Err(LudoError::WrongMove);
        }
        if token_num >= 4 {
            return Err(LudoError::WrongMove);
        }
        let idx = (cur as usize) * 4 + (token_num as usize);
        let cur_position = self.token_positions[idx];
        if cur_position == -1 {
            return Err(LudoError::WrongMove);
        }
        let new_position = cur_position + self.current_roll as i8;
        if new_position > 56 {
            return Err(LudoError::WrongMove);
        }
        self.token_positions[idx] = new_position;
        proof {
            assert(self@.tokens =~= old(self)@.tokens.update(
                tidx(cur as int, token_num as int),
                new_position as int,
            ));
        }
        let ghost moved = self@;
        let base = (cur as usize) * 4;
        if self.token_positions[base] == 56 && self.token_positions[base + 1] == 56
            && self.token_positions[base + 2] == 56 && self.token_positions[base + 3] == 56 {
            self.game_state = GameState::Finished;
            self.winner = player;
            proof {
                assert(all_home(moved, cur as int));
            }
            return Ok(());
        }
        proof {
            assert(moved.pos(cur as int, 0) == self.token_positions@[(base + 0) as int] as int);
            assert(moved.pos(cur as int, 1) == self.token_positions@[(base + 1) as int] as int);
            assert(moved.pos(cur as int, 2) == self.token_positions@[(base + 2) as int] as int);
            assert(moved.pos(cur as int, 3) == self.token_positions@[(base + 3) as int] as int);
            assert(!all_home(moved, cur as int));
        }
        if !is_safe_square(new_position) && new_position < 51 {
            match self.find_first_hit(cur, new_position) {
                Some(k) => {
                    if self.has_block(k) {
                        self.token_positions[idx] = -1;
                        proof {
                            assert(self@.tokens =~= moved.tokens.update(
                                tidx(cur as int, token_num as int),
                                -1int,
                            ));
                        }
                    } else {
                        self.token_positions[k] = -1;
                        proof {
                            assert(self@.tokens =~= moved.tokens.update(k as int, -1int));
                        }
                    }
                },
                None => {},
            }
        }
        proof {
            assert(self@ =~= capture_spec(moved, cur as int, token_num as int, new_position as int));
        }
        if self.current_roll == 6 {
            self.six_count = self.six_count + 1;
        } else {
            self.six_count = 0;
            proof {
                assert(self@.players[cur as int] != 0);
            }
            self.next_player();
        }
        self.game_state = GameState::RollDice;
        Ok(())
    }
}

} // verus!
