//! Joining, starting, cancelling: how many joins a game takes and every
//! rejection on the way in.

use ludo::game::{Colors, Game, GameState, LudoError};

const ALICE: u64 = 11;
const BOB: u64 = 22;
const CAROL: u64 = 33;
const DAN: u64 = 44;

#[test]
fn create_game_rejects_bad_player_count() {
    assert_eq!(
        Game::create_game(1, Colors::Red, ALICE).err(),
        Some(LudoError::InvalidNumPlayers)
    );
    assert_eq!(
        Game::create_game(5, Colors::Red, ALICE).err(),
        Some(LudoError::InvalidNumPlayers)
    );
    assert_eq!(
        Game::create_game(0, Colors::Red, ALICE).err(),
        Some(LudoError::InvalidNumPlayers)
    );
}

#[test]
fn create_game_seats_creator() {
    let g = Game::create_game(2, Colors::Green, ALICE).unwrap();
    assert_eq!(g.num_players, 2);
    assert_eq!(g.cur_player, 1);
    assert_eq!(g.players, vec![0, ALICE, 0, 0]);
    assert_eq!(g.game_state, GameState::NotStarted);
    assert_eq!(g.token_positions, vec![-1; 16]);
    assert_eq!(g.winner, 0);
}

#[test]
fn two_player_game_takes_exactly_two_joins() {
    let mut g = Game::create_game(2, Colors::Red, ALICE).unwrap();
    // The second join is the last one needed, so the ordinary entry point
    // is the wrong one.
    assert_eq!(
        g.join_game(BOB, Colors::Blue),
        Err(LudoError::NeedToRunJoinAndStart)
    );
    assert_eq!(g.game_state, GameState::NotStarted);
    assert_eq!(g.join_and_start_game(BOB, Colors::Blue), Ok(()));
    assert_eq!(g.game_state, GameState::Starting);
    assert_eq!(g.players, vec![ALICE, 0, 0, BOB]);
    assert_eq!(g.cur_player, 0);
}

#[test]
fn three_player_game_takes_exactly_three_joins() {
    let mut g = Game::create_game(3, Colors::Red, ALICE).unwrap();
    // Starting with only two of three seats filled is rejected.
    assert_eq!(
        g.join_and_start_game(BOB, Colors::Green),
        Err(LudoError::NeedToRunJoin)
    );
    assert_eq!(g.join_game(BOB, Colors::Green), Ok(()));
    assert_eq!(g.cur_player, 2);
    assert_eq!(
        g.join_game(CAROL, Colors::Yellow),
        Err(LudoError::NeedToRunJoinAndStart)
    );
    assert_eq!(g.join_and_start_game(CAROL, Colors::Yellow), Ok(()));
    assert_eq!(g.game_state, GameState::Starting);
    assert_eq!(g.players, vec![ALICE, BOB, CAROL, 0]);
}

#[test]
fn four_player_game_takes_exactly_four_joins() {
    let mut g = Game::create_game(4, Colors::Blue, ALICE).unwrap();
    assert_eq!(g.join_game(BOB, Colors::Red), Ok(()));
    assert_eq!(g.join_game(CAROL, Colors::Green), Ok(()));
    assert_eq!(
        g.join_game(DAN, Colors::Yellow),
        Err(LudoError::NeedToRunJoinAndStart)
    );
    assert_eq!(g.join_and_start_game(DAN, Colors::Yellow), Ok(()));
    assert_eq!(g.game_state, GameState::Starting);
    assert_eq!(g.players, vec![BOB, CAROL, DAN, ALICE]);
}

#[test]
fn join_rejects_taken_color_and_repeat_player() {
    let mut g = Game::create_game(4, Colors::Red, ALICE).unwrap();
    assert_eq!(
        g.join_game(BOB, Colors::Red),
        Err(LudoError::ColorAlreadyTaken)
    );
    assert_eq!(
        g.join_game(ALICE, Colors::Green),
        Err(LudoError::PlayerAlreadyJoined)
    );
    assert_eq!(g.join_game(BOB, Colors::Green), Ok(()));
    assert_eq!(g.join_game(CAROL, Colors::Yellow), Ok(()));
    // Now only the starting join is left, and its occupancy checks reject
    // a seated player and a taken color the same way.
    assert_eq!(
        g.join_and_start_game(BOB, Colors::Blue),
        Err(LudoError::PlayerAlreadyJoined)
    );
    assert_eq!(
        g.join_and_start_game(DAN, Colors::Yellow),
        Err(LudoError::ColorAlreadyTaken)
    );
}

#[test]
fn join_rejects_started_game() {
    let mut g = Game::create_game(2, Colors::Red, ALICE).unwrap();
    g.join_and_start_game(BOB, Colors::Green).unwrap();
    assert_eq!(
        g.join_game(CAROL, Colors::Yellow),
        Err(LudoError::GameAlreadyStarted)
    );
    assert_eq!(
        g.join_and_start_game(CAROL, Colors::Yellow),
        Err(LudoError::GameAlreadyStarted)
    );
}

#[test]
fn close_rejects_game_not_started_or_in_play() {
    let g = Game::create_game(2, Colors::Red, ALICE).unwrap();
    assert_eq!(g.close_game(), Err(LudoError::GameNotFinished));
    let mut g2 = Game::create_game(2, Colors::Red, ALICE).unwrap();
    g2.join_and_start_game(BOB, Colors::Green).unwrap();
    assert_eq!(g2.close_game(), Err(LudoError::GameNotFinished));
}

#[test]
fn cancel_only_by_lone_creator() {
    let g = Game::create_game(3, Colors::Yellow, ALICE).unwrap();
    assert_eq!(
        g.cancel_game(BOB, Colors::Yellow),
        Err(LudoError::WrongPlayer)
    );
    assert_eq!(
        g.cancel_game(ALICE, Colors::Red),
        Err(LudoError::WrongPlayer)
    );
    assert_eq!(g.cancel_game(ALICE, Colors::Yellow), Ok(()));

    let mut g2 = Game::create_game(3, Colors::Yellow, ALICE).unwrap();
    g2.join_game(BOB, Colors::Green).unwrap();
    assert_eq!(
        g2.cancel_game(ALICE, Colors::Yellow),
        Err(LudoError::AnotherPlayerAlreadyJoined)
    );

    let mut g3 = Game::create_game(2, Colors::Yellow, ALICE).unwrap();
    g3.join_and_start_game(BOB, Colors::Green).unwrap();
    assert_eq!(
        g3.cancel_game(ALICE, Colors::Yellow),
        Err(LudoError::GameAlreadyStarted)
    );
}
