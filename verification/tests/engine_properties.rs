//! Tests of the engine's stated properties: exact rejection reasons,
//! untouched state on rejection, gravity, terminal states, and the small
//! helpers.

use connect_four::game::Game;
use connect_four::game::GameError;
use connect_four::game::GameStatus;
use connect_four::game::Player;

fn boards_match(a: &Game, b: &Game) -> bool {
    if a.columns() != b.columns() || a.rows() != b.rows() {
        return false;
    }
    for column in 0..a.columns() {
        for row in 0..a.rows() {
            if a.cell(column, row) != b.cell(column, row) {
                return false;
            }
        }
    }
    a.current == b.current && a.status == b.status && a.winner == b.winner
}

#[test]
fn rejected_out_of_bounds_move_names_the_reason() {
    let game = Game::initialise(1, 1);
    let error = game.play_on_column(5).unwrap_err();
    assert_eq!(error.message, "Game board does not have that many columns.");
    assert_eq!(error.previous_state.status, GameStatus::Started);
    assert_eq!(error.previous_state.current, Player::One);
}

#[test]
fn rejected_full_column_move_names_the_reason() {
    let game = Game::initialise(2, 1).play_on_column(0).unwrap();
    let error = game.play_on_column(0).unwrap_err();
    assert_eq!(error.message, "Column is full");
    assert_eq!(error.previous_state.current, Player::Two);
}

#[test]
fn finished_game_rejects_further_moves() {
    // A draw on the smallest board, then one more try.
    let drawn = Game::initialise(1, 1).play_on_column(0).unwrap();
    assert_eq!(drawn.status, GameStatus::Draw);
    let error = drawn.play_on_column(0).unwrap_err();
    assert_eq!(error.message, "The game is already over.");
    assert_eq!(error.previous_state.status, GameStatus::Draw);
}

#[test]
fn completed_game_rejects_further_moves() {
    let mut game = Game::initialise(4, 4);
    for column in [0, 1, 0, 2, 0, 3, 0] {
        game = game.play_on_column(column).unwrap();
    }
    assert_eq!(game.status, GameStatus::Completed);
    let error = game.play_on_column(1).unwrap_err();
    assert_eq!(error.message, "The game is already over.");
    assert_eq!(error.previous_state.status, GameStatus::Completed);
    assert_eq!(error.previous_state.winner, Some(Player::One));
}

#[test]
fn repeating_an_illegal_move_repeats_the_same_rejection() {
    let game = Game::initialise(1, 1);
    let first = game.play_on_column(3).unwrap_err();
    let first_state = first.previous_state;
    let second = first_state.play_on_column(3).unwrap_err();
    assert_eq!(first.message, second.message);
    let fresh = Game::initialise(1, 1);
    assert!(boards_match(&second.previous_state, &fresh));
}

#[test]
fn a_rejected_move_leaves_the_state_playable() {
    let game = Game::initialise(1, 1);
    let error = game.play_on_column(1).unwrap_err();
    let recovered = error.previous_state.play_on_column(0).unwrap();
    assert_eq!(recovered.status, GameStatus::Draw);
    assert_eq!(recovered.winner, None);
}

#[test]
fn pieces_stack_bottom_up() {
    let game = Game::initialise(2, 2).play_on_column(0).unwrap().play_on_column(0).unwrap();
    assert_eq!(game.cell(0, 0), Player::One);
    assert_eq!(game.cell(0, 1), Player::Two);
    assert_eq!(game.cell(1, 0), Player::Empty);
    assert_eq!(game.cell(1, 1), Player::Empty);
}

#[test]
fn the_board_reports_its_dimensions() {
    let game = Game::initialise(7, 6);
    assert_eq!(game.columns(), 7);
    assert_eq!(game.rows(), 6);
    let empty = Game::initialise(0, 0);
    assert_eq!(empty.columns(), 0);
    assert_eq!(empty.rows(), 0);
}

#[test]
fn a_board_without_columns_rejects_every_move() {
    let game = Game::initialise(0, 0);
    let error = game.play_on_column(0).unwrap_err();
    assert_eq!(error.message, "Game board does not have that many columns.");
    assert_eq!(error.previous_state.status, GameStatus::Started);
}

#[test]
fn player_two_wins_when_completing_a_line() {
    let mut game = Game::initialise(4, 4);
    for column in [0, 3, 0, 3, 1, 3, 1, 3] {
        game = game.play_on_column(column).unwrap();
    }
    assert_eq!(game.status, GameStatus::Completed);
    assert_eq!(game.winner, Some(Player::Two));
}

#[test]
fn turns_keep_alternating_over_a_long_open_game() {
    let mut game = Game::initialise(7, 6);
    for turn in 0..20 {
        let expected = if turn % 2 == 0 { Player::One } else { Player::Two };
        assert_eq!(game.current, expected);
        assert_eq!(game.status, GameStatus::Started);
        game = game.play_on_column(turn % 7).unwrap();
    }
}

#[test]
fn toggling_swaps_the_two_players() {
    assert_eq!(Player::One.toggle(), Player::Two);
    assert_eq!(Player::Two.toggle(), Player::One);
    assert_eq!(Player::Empty.toggle(), Player::Empty);
}

#[test]
fn with_message_packs_reason_and_state() {
    let game = Game::initialise(3, 3);
    let error = GameError::with_message("no room", game);
    assert_eq!(error.message, "no room");
    assert_eq!(error.previous_state.columns(), 3);
    assert_eq!(error.previous_state.status, GameStatus::Started);
}
