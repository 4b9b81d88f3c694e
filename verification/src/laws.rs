//! The laws of the rules engine, stated over the transition functions and
//! proved once and for all: how many joins a game takes, the bounds every
//! written position obeys, what safe squares and blocks guarantee, the
//! forced skip on a third six, and how a win cuts the move short.

use vstd::prelude::*;
use crate::game::{GameState, GameView, LudoError, joined_count, next_occupied, tidx};
use crate::engine::{
    all_home, apply_roll_spec, create_game_spec, first_hit, has_block_at, is_safe,
    join_and_start_game_spec, join_game_spec, landing_square, lemma_first_hit_bounds,
    make_move_spec, moved_view, token_into_play_spec,
};

verus! {

/// A freshly created game seats exactly one player — the creator — and is
/// not started.
pub proof fn lemma_create_game_seats_one(num_players: int, color: int, creator: int)
    requires
        0 <= color < 4,
        creator > 0,
    ensures
        match create_game_spec(num_players, color, creator) {
            Ok(v) => v.wf() && joined_count(v.players) == 1 && v.game_state is NotStarted,
            Err(e) => e == LudoError::InvalidNumPlayers && !(num_players == 2 || num_players == 3
                || num_players == 4),
        },
{
    match create_game_spec(num_players, color, creator) {
        Ok(v) => {
            assert(v.players[color] == creator);
            assert forall|i: int| 0 <= i < 16 implies -1 <= #[trigger] v.tokens[i] <= 56 by {
                assert(v.tokens[i] == -1);
            }
            assert forall|i: int| 0 <= i < 4 implies #[trigger] v.players[i] >= 0 by {
                assert(v.players[i] == if i == color {
                    creator
                } else {
                    0int
                });
            }
            assert(joined_count(v.players) == 1);
        },
        Err(_) => {},
    }
}

/// A successful ordinary join seats exactly one more player and never fills
/// the game: afterwards it is still not started and at least one seat is
/// still empty, so at least one further join — the starting one — is needed.
pub proof fn lemma_join_game_counts(v: GameView, player: int, color: int)
    requires
        v.wf(),
        player != 0,
        0 <= color < 4,
    ensures
        match join_game_spec(v, player, color) {
            Ok(v2) => {
                &&& joined_count(v2.players) == joined_count(v.players) + 1
                &&& v2.game_state is NotStarted
                &&& joined_count(v2.players) < v2.num_players
            },
            Err(_) => true,
        },
{
}

/// The starting join succeeds only as the game's last join — when exactly
/// one seat is empty — and moves the game to `Starting` with every one of
/// its `num_players` seats occupied. Together with
/// [`lemma_create_game_seats_one`] and [`lemma_join_game_counts`] this puts
/// the number of successful joins of any game that begins at exactly
/// `num_players`: the creator's, `num_players - 2` ordinary ones, and this
/// one.
pub proof fn lemma_join_and_start_game_counts(v: GameView, player: int, color: int)
    requires
        v.wf(),
        player != 0,
        0 <= color < 4,
    ensures
        join_and_start_game_spec(v, player, color) is Ok ==> joined_count(v.players)
            == v.num_players - 1,
        match join_and_start_game_spec(v, player, color) {
            Ok(v2) => v2.game_state is Starting && joined_count(v2.players) == v2.num_players,
            Err(_) => true,
        },
{
}

/// Advancing a token never writes a position above 56 or below -1, on any
/// token of any color.
pub proof fn lemma_make_move_positions_bounded(v: GameView, player: int, token: int)
    requires
        v.wf(),
        0 <= token < 4,
    ensures
        match make_move_spec(v, player, token) {
            Ok(v2) => forall|i: int| 0 <= i < 16 ==> -1 <= #[trigger] v2.tokens[i] <= 56,
            Err(_) => true,
        },
{
    match make_move_spec(v, player, token) {
        Ok(v2) => {
            let a = landing_square(v, token);
            let moved = moved_view(v, token);
            assert(0 <= v.cur_player < 4);
            assert(0 <= tidx(v.cur_player, token) < 16);
            assert(-1 <= a <= 56);
            assert(forall|i: int| 0 <= i < 16 ==> -1 <= #[trigger] moved.tokens[i] <= 56);
            if !all_home(moved, v.cur_player) {
                lemma_first_hit_bounds(moved, v.cur_player, a, 0);
            }
        },
        Err(_) => {},
    }
}

/// Entering play writes exactly 0, and only to the entered token.
pub proof fn lemma_token_into_play_writes_zero(v: GameView, player: int, token: int)
    requires
        v.wf(),
        0 <= token < 4,
    ensures
        match token_into_play_spec(v, player, token) {
            Ok(v2) => {
                &&& v2.pos(v.cur_player, token) == 0
                &&& forall|i: int|
                    0 <= i < 16 && i != tidx(v.cur_player, token) ==> #[trigger] v2.tokens[i]
                        == v.tokens[i]
            },
            Err(_) => true,
        },
{
}

/// A move landing on a safe square never captures, regardless of occupancy:
/// every token of every other color stays where it was, and the mover's
/// token stands on the landing square.
pub proof fn lemma_safe_square_no_capture(v: GameView, player: int, token: int)
    requires
        v.wf(),
        0 <= token < 4,
        make_move_spec(v, player, token) is Ok,
        is_safe(landing_square(v, token)),
    ensures
        match make_move_spec(v, player, token) {
            Ok(v2) => {
                &&& v2.pos(v.cur_player, token) == landing_square(v, token)
                &&& forall|i: int|
                    0 <= i < 16 && i / 4 != v.cur_player ==> #[trigger] v2.tokens[i] == v.tokens[i]
            },
            Err(_) => true,
        },
{
}

/// When the capture scan first collides with a token that is part of a
/// block — stacked with another token of its own color — the attacker's
/// moved token is sent home instead, and every other token stays.
pub proof fn lemma_block_sends_attacker_home(v: GameView, player: int, token: int)
    requires
        v.wf(),
        0 <= token < 4,
        make_move_spec(v, player, token) is Ok,
        !is_safe(landing_square(v, token)),
        landing_square(v, token) < 51,
        !all_home(moved_view(v, token), v.cur_player),
        ({
            let moved = moved_view(v, token);
            first_hit(moved, v.cur_player, landing_square(v, token), 0) matches Some(k)
                && has_block_at(moved, k)
        }),
    ensures
        match make_move_spec(v, player, token) {
            Ok(v2) => {
                &&& v2.pos(v.cur_player, token) == -1
                &&& forall|i: int|
                    0 <= i < 16 && i != tidx(v.cur_player, token) ==> #[trigger] v2.tokens[i]
                        == v.tokens[i]
            },
            Err(_) => true,
        },
{
}

/// A third consecutive six always forfeits the turn, even when a legal move
/// exists: the streak resets, the turn passes to the next occupied seat,
/// and the roll is not recorded.
pub proof fn lemma_third_six_forfeits(v: GameView)
    requires
        v.wf(),
        v.game_state is RollingDice,
        v.six_count == 2,
    ensures
        ({
            let v2 = apply_roll_spec(v, 6);
            &&& v2.game_state is RollDice
            &&& v2.six_count == 0
            &&& v2.cur_player == next_occupied(v.players, v.cur_player)
            &&& v2.current_roll == v.current_roll
            &&& v2.tokens == v.tokens
        }),
{
}

/// Defense in depth for the third-six forfeiture: even in a Move state
/// holding a six on a streak of two — a state the roll step never
/// produces — the current player can neither advance nor enter any token;
/// both actions are rejected, and a rejected action leaves the record
/// unchanged. The forfeiture cannot be bypassed by moving.
pub proof fn lemma_third_six_rejected_in_move(v: GameView, player: int, token: int)
    requires
        v.game_state is Move,
        v.players[v.cur_player] == player,
        v.six_count == 2,
        v.current_roll == 6,
    ensures
        make_move_spec(v, player, token) == Err::<GameView, LudoError>(LudoError::WrongMove),
        token_into_play_spec(v, player, token) == Err::<GameView, LudoError>(LudoError::WrongMove),
{
}

/// A move that brings all four of the mover's tokens to the center ends the
/// game at once: the game finishes with the mover as winner, no capture is
/// resolved, and the turn does not pass.
pub proof fn lemma_win_ends_game(v: GameView, player: int, token: int)
    requires
        v.wf(),
        0 <= token < 4,
        make_move_spec(v, player, token) is Ok,
        all_home(moved_view(v, token), v.cur_player),
    ensures
        match make_move_spec(v, player, token) {
            Ok(v2) => {
                &&& v2.game_state is Finished
                &&& v2.winner == v.players[v.cur_player]
                &&& v2.cur_player == v.cur_player
                &&& v2.six_count == v.six_count
                &&& v2.pos(v.cur_player, token) == 56
                &&& forall|i: int|
                    0 <= i < 16 && i != tidx(v.cur_player, token) ==> #[trigger] v2.tokens[i]
                        == v.tokens[i]
            },
            Err(_) => true,
        },
{
}

} // verus!
