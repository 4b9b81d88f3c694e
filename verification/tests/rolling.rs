//! Requesting rolls, consuming delivered entropy, forced skips and the
//! six-streak rule.

use ludo::game::{Colors, Game, GameState, LudoError};

const ALICE: u64 = 11;
const BOB: u64 = 22;

fn started_two_player() -> Game {
    // ALICE on Red (slot 0), BOB on Green (slot 1); ALICE goes first.
    let mut g = Game::create_game(2, Colors::Red, ALICE).unwrap();
    g.join_and_start_game(BOB, Colors::Green).unwrap();
    g.callback_start_game(&[0u8; 32]).unwrap();
    assert_eq!(g.cur_player, 0);
    assert_eq!(g.game_state, GameState::RollDice);
    g
}

/// A delivered roll is `1 + b % 6` for the last entropy byte `b` (when that
/// byte survives rejection sampling), not the byte itself.
fn roll_bytes(roll: u8) -> [u8; 32] {
    assert!((1..=6).contains(&roll));
    [roll - 1; 32]
}

#[test]
fn start_randomness_picks_first_player() {
    let mut g = Game::create_game(2, Colors::Red, ALICE).unwrap();
    g.join_and_start_game(BOB, Colors::Green).unwrap();
    // steps = 0 % 2 = 0: the first occupied slot, ALICE's.
    g.callback_start_game(&[0u8; 32]).unwrap();
    assert_eq!(g.game_state, GameState::RollDice);
    assert_eq!(g.cur_player, 0);

    let mut g2 = Game::create_game(2, Colors::Red, ALICE).unwrap();
    g2.join_and_start_game(BOB, Colors::Green).unwrap();
    // steps = 1 % 2 = 1: one seat further, BOB's.
    g2.callback_start_game(&[1u8; 32]).unwrap();
    assert_eq!(g2.cur_player, 1);
}

#[test]
fn start_randomness_skips_empty_slot_zero() {
    let mut g = Game::create_game(2, Colors::Green, ALICE).unwrap();
    g.join_and_start_game(BOB, Colors::Yellow).unwrap();
    // Slot 0 is empty: the count starts from the first occupied slot.
    g.callback_start_game(&[0u8; 32]).unwrap();
    assert_eq!(g.cur_player, 1);

    let mut g2 = Game::create_game(2, Colors::Green, ALICE).unwrap();
    g2.join_and_start_game(BOB, Colors::Yellow).unwrap();
    g2.callback_start_game(&[1u8; 32]).unwrap();
    assert_eq!(g2.cur_player, 2);
}

#[test]
fn roll_request_needs_right_state_and_player() {
    let mut g = Game::create_game(2, Colors::Red, ALICE).unwrap();
    assert_eq!(g.roll_dice_delegate(ALICE), Err(LudoError::WrongGameState));
    let mut g = started_two_player();
    assert_eq!(g.roll_dice_delegate(BOB), Err(LudoError::WrongPlayer));
    assert_eq!(g.roll_dice_delegate(ALICE), Ok(()));
    assert_eq!(g.game_state, GameState::RollingDice);
    // The record is locked until the entropy arrives.
    assert_eq!(g.roll_dice_delegate(ALICE), Err(LudoError::WrongGameState));
}

#[test]
fn delivered_roll_is_derived_not_copied() {
    let mut g = started_two_player();
    g.roll_dice_delegate(ALICE).unwrap();
    // Bytes of value 5 map to a roll of 6 (1 + 5 % 6), not to 5.
    g.callback_roll_dice(&[5u8; 32]).unwrap();
    assert_eq!(g.game_state, GameState::Move);
    assert_eq!(g.current_roll, 6);
}

#[test]
fn delivered_roll_rejects_biased_bytes() {
    let mut g = started_two_player();
    g.roll_dice_delegate(ALICE).unwrap();
    // 252..=255 would bias the low rolls, so byte 31 is rejected and the
    // scan moves on to byte 30: the roll is 1 + 5 % 6 = 6, not 1 + 253 % 6.
    let mut bytes = [5u8; 32];
    bytes[31] = 253;
    g.callback_roll_dice(&bytes).unwrap();
    assert_eq!(g.game_state, GameState::Move);
    assert_eq!(g.current_roll, 6);
}

#[test]
fn no_legal_move_skips_turn() {
    let mut g = started_two_player();
    g.roll_dice_delegate(ALICE).unwrap();
    // Every ALICE token is in the home yard and the roll is not a six:
    // no move exists, the turn passes to BOB without a Move phase.
    g.callback_roll_dice(&roll_bytes(4)).unwrap();
    assert_eq!(g.game_state, GameState::RollDice);
    assert_eq!(g.cur_player, 1);
    assert_eq!(g.six_count, 0);
}

#[test]
fn six_from_home_yard_is_a_legal_move() {
    let mut g = started_two_player();
    g.roll_dice_delegate(ALICE).unwrap();
    g.callback_roll_dice(&roll_bytes(6)).unwrap();
    assert_eq!(g.game_state, GameState::Move);
    assert_eq!(g.current_roll, 6);
    assert_eq!(g.cur_player, 0);
}

#[test]
fn enter_then_advance_on_empty_board() {
    // Scenario: ALICE enters a token with a rolled six, keeps the turn,
    // rolls a 4 and advances the token to 4; the board is otherwise empty,
    // so nothing is captured, and the turn passes to BOB.
    let mut g = started_two_player();
    g.roll_dice_delegate(ALICE).unwrap();
    g.callback_roll_dice(&roll_bytes(6)).unwrap();
    g.token_into_play(ALICE, 0).unwrap();
    assert_eq!(g.token_positions[0], 0);
    assert_eq!(g.cur_player, 0);

    g.roll_dice_delegate(ALICE).unwrap();
    g.callback_roll_dice(&roll_bytes(4)).unwrap();
    assert_eq!(g.game_state, GameState::Move);
    g.make_move(ALICE, 0).unwrap();
    assert_eq!(g.token_positions[0], 4);
    assert_eq!(g.token_positions[4..], [-1; 12]);
    assert_eq!(g.game_state, GameState::RollDice);
    assert_eq!(g.cur_player, 1);
}

#[test]
fn third_six_forfeits_turn_despite_legal_moves() {
    // Scenario: ALICE enters a token, then advances it twice on sixes,
    // reaching a streak of two; the third six skips her turn outright.
    let mut g = started_two_player();
    g.roll_dice_delegate(ALICE).unwrap();
    g.callback_roll_dice(&roll_bytes(6)).unwrap();
    g.token_into_play(ALICE, 0).unwrap();
    assert_eq!(g.six_count, 0);

    g.roll_dice_delegate(ALICE).unwrap();
    g.callback_roll_dice(&roll_bytes(6)).unwrap();
    g.make_move(ALICE, 0).unwrap();
    assert_eq!(g.six_count, 1);
    assert_eq!(g.cur_player, 0);

    g.roll_dice_delegate(ALICE).unwrap();
    g.callback_roll_dice(&roll_bytes(6)).unwrap();
    g.make_move(ALICE, 0).unwrap();
    assert_eq!(g.six_count, 2);
    assert_eq!(g.cur_player, 0);
    assert_eq!(g.token_positions[0], 12);

    // The token at 12 could move, but the third consecutive six forfeits
    // the turn anyway.
    g.roll_dice_delegate(ALICE).unwrap();
    g.callback_roll_dice(&roll_bytes(6)).unwrap();
    assert_eq!(g.game_state, GameState::RollDice);
    assert_eq!(g.cur_player, 1);
    assert_eq!(g.six_count, 0);
    assert_eq!(g.token_positions[0], 12);
}
