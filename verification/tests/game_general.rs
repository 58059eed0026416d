//! The rules of play, one scenario per test: turn order, the two
//! rejections, the draw, and the four winning directions.

use connect_four::game::DEFAULT_COLUMNS;
use connect_four::game::DEFAULT_ROWS;
use connect_four::game::Game;
use connect_four::game::GameStatus;
use connect_four::game::Player;

#[test]
fn game_game_starts_with_the_player_one_playing_first() {
    let game = Game::initialise(DEFAULT_COLUMNS, DEFAULT_ROWS);
    assert_eq!(GameStatus::Started, game.status);
    assert_eq!(Player::One, game.current);
}

#[test]
fn game_player_one_and_player_two_take_turns() {
    let mut game = Game::initialise(DEFAULT_COLUMNS, DEFAULT_ROWS);
    assert_eq!(Player::One, game.current);
    game = game.play_on_column(1).unwrap();
    assert_eq!(Player::Two, game.current);
    game = game.play_on_column(1).unwrap();
    assert_eq!(Player::One, game.current);
}

#[test]
fn game_cannot_play_on_a_column_outside_the_board() {
    let game = Game::initialise(1, DEFAULT_ROWS);
    let result = game.play_on_column(1);
    assert!(result.is_err())
}

#[test]
fn game_cannot_stack_a_column_beyond_the_row_size_of_the_board() {
    let mut game = Game::initialise(2, 1);
    game = game.play_on_column(0).unwrap();
    let result = game.play_on_column(0);
    assert!(result.is_err())
}

#[test]
fn game_draws_the_game_if_all_positions_have_been_played() {
    let mut game = Game::initialise(1, 1);
    game = game.play_on_column(0).unwrap();
    assert_eq!(game.status, GameStatus::Draw)
}

/*
o . . .
o . . .
o . . .
x x x x
*/
#[test]
fn game_recognises_a_win_along_the_horizontal() {
    let mut game = Game::initialise(4, 4);
    game = game.play_on_column(0).unwrap();
    game = game.play_on_column(0).unwrap();
    game = game.play_on_column(1).unwrap();
    game = game.play_on_column(0).unwrap();
    game = game.play_on_column(2).unwrap();
    game = game.play_on_column(0).unwrap();
    game = game.play_on_column(3).unwrap();
    assert_eq!(game.status, GameStatus::Completed);
    assert!(game.winner.is_some());
    assert_eq!(game.winner.unwrap(), Player::One);
}

/*
x . . .
x . . .
x . . .
x o o o
*/
#[test]
fn game_recognises_a_win_along_the_vertical() {
    let mut game = Game::initialise(4, 4);
    game = game.play_on_column(0).unwrap();
    game = game.play_on_column(1).unwrap();
    game = game.play_on_column(0).unwrap();
    game = game.play_on_column(2).unwrap();
    game = game.play_on_column(0).unwrap();
    game = game.play_on_column(3).unwrap();
    game = game.play_on_column(0).unwrap();
    assert_eq!(game.status, GameStatus::Completed);
    assert!(game.winner.is_some());
    assert_eq!(game.winner.unwrap(), Player::One);
}

/*
. . . x
x x x o
x x o o
x o o o
*/
#[test]
fn game_recognises_a_win_along_the_positive_diagonal() {
    let mut game = Game::initialise(4, 4);
    game = game.play_on_column(0).unwrap();
    game = game.play_on_column(1).unwrap();
    game = game.play_on_column(0).unwrap();
    game = game.play_on_column(2).unwrap();
    game = game.play_on_column(0).unwrap();
    game = game.play_on_column(2).unwrap();
    game = game.play_on_column(1).unwrap();
    game = game.play_on_column(3).unwrap();
    game = game.play_on_column(1).unwrap();
    game = game.play_on_column(3).unwrap();
    game = game.play_on_column(2).unwrap();
    game = game.play_on_column(3).unwrap();
    game = game.play_on_column(3).unwrap();
    assert_eq!(game.status, GameStatus::Completed);
    assert!(game.winner.is_some());
    assert_eq!(game.winner.unwrap(), Player::One);
}

/*
x . . .
o x x x
o o x x
o o o x
*/
#[test]
fn game_recognises_a_win_along_the_negative_diagonal() {
    let mut game = Game::initialise(4, 4);
    game = game.play_on_column(3).unwrap();
    game = game.play_on_column(2).unwrap();
    game = game.play_on_column(3).unwrap();
    game = game.play_on_column(1).unwrap();
    game = game.play_on_column(3).unwrap();
    game = game.play_on_column(1).unwrap();
    game = game.play_on_column(2).unwrap();
    game = game.play_on_column(0).unwrap();
    game = game.play_on_column(2).unwrap();
    game = game.play_on_column(0).unwrap();
    game = game.play_on_column(1).unwrap();
    game = game.play_on_column(0).unwrap();
    game = game.play_on_column(0).unwrap();
    assert_eq!(game.status, GameStatus::Completed);
    assert!(game.winner.is_some());
    assert_eq!(game.winner.unwrap(), Player::One);
}

#[test]
fn game_when_playing_an_invalid_move_can_try_to_find_a_different_move() {
    let mut game = Game::initialise(1, 1);
    let result = game.play_on_column(3);
    assert!(result.is_err());
    game = result.unwrap_err().previous_state;
    let result = game.play_on_column(0);
    assert!(result.is_ok())
}

