//! The board engine: game state, the `play_on_column` transition, and the
//! four-in-a-row scan it relies on.

use vstd::prelude::*;

use crate::rules::board_full;
use crate::rules::board_full_before;
use crate::rules::board_view;
use crate::rules::column_full;
use crate::rules::column_full_below;
use crate::rules::column_full_message;
use crate::rules::has_winner;
use crate::rules::init_view;
use crate::rules::lemma_first_empty_at;
use crate::rules::lemma_next_state_wf;
use crate::rules::lemma_place_shape;
use crate::rules::move_allowed;
use crate::rules::next_state;
use crate::rules::place;
use crate::rules::rejection_message;
use crate::rules::row_count;
use crate::rules::toggled;
use crate::rules::wins_at;
use crate::rules::wins_diagonally;
use crate::rules::wins_horizontally;
use crate::rules::wins_reverse_diagonally;
use crate::rules::wins_vertically;
use crate::rules::GameView;

verus! {

/// The column count of the standard board.
pub const DEFAULT_COLUMNS: usize = 7;

/// The row count of the standard board.
pub const DEFAULT_ROWS: usize = 6;

/// The owner of a cell: one of the two players, or nobody.
#[derive(PartialEq, Eq, Structural, Debug, Clone, Copy)]
pub enum Player {
    Empty,
    One,
    Two,
}

impl Player {
    /// The player who moves next.
    pub fn toggle(self) -> (other: Player)
        ensures
            other == toggled(self),
    {
        match self {
            Player::One => Player::Two,
            Player::Two => Player::One,
            Player::Empty => Player::Empty,
        }
    }
}

/// Where the game stands: still running, won, or drawn.
#[derive(PartialEq, Eq, Structural, Debug, Clone, Copy)]
pub enum GameStatus {
    Started,
    Completed,
    Draw,
}

/// A rejected move: a human-readable reason together with the state the
/// move was attempted on, handed back untouched so the caller can retry.
#[derive(Debug)]
pub struct GameError {
    pub message: String,
    pub previous_state: Game,
}

impl GameError {
    /// Packs a rejection reason with the state it applies to.
    pub fn with_message(message: &str, previous_state: Game) -> (error: GameError)
        ensures
            error.message@ == message@,
            error.previous_state == previous_state,
    {
        GameError { message: message.to_owned(), previous_state }
    }
}

/// A Connect-4 game: the board (columns of cells, filled bottom-up), the
/// player to move, and the termination status.
#[derive(Debug, Clone)]
pub struct Game {
    game_board: Vec<Vec<Player>>,
    pub current: Player,
    pub winner: Option<Player>,
    pub status: GameStatus,
}

impl View for Game {
    type V = GameView;

    closed spec fn view(&self) -> GameView {
        GameView {
            board: board_view(self.game_board@),
            current: self.current,
            status: self.status,
            winner: self.winner,
        }
    }
}

impl Game {
    /// The state invariant of [`GameView`], read on the executable type.
    pub open spec fn wf(self) -> bool {
        self@.wf()
    }

    /// Creates an all-empty board of the given size, with player one to
    /// move and the game started.
    pub fn initialise(columns: usize, rows: usize) -> (game: Game)
        ensures
            game@ == init_view(columns as int, rows as int),
            game.wf(),
    {
        let mut game_board: Vec<Vec<Player>> = Vec::new();
        let mut c: usize = 0;
        while c < columns
            invariant
                c <= columns,
                game_board@.len() == c,
                forall|i: int|
                    0 <= i < c ==> (#[trigger] game_board@[i])@ == Seq::new(
                        rows as nat,
                        |r: int| Player::Empty,
                    ),
            decreases columns - c,
        {
            let mut column: Vec<Player> = Vec::new();
            let mut r: usize = 0;
            while r < rows
                invariant
                    r <= rows,
                    column@.len() == r,
                    forall|i: int| 0 <= i < r ==> column@[i] == Player::Empty,
                decreases rows - r,
            {
                column.push(Player::Empty);
                r += 1;
            }
            assert(column@ =~= Seq::new(rows as nat, |i: int| Player::Empty));
            game_board.push(column);
            c += 1;
        }
        let game = Game {
            game_board,
            current: Player::One,
            winner: None,
            status: GameStatus::Started,
        };
        proof {
            assert(game@.board =~~= init_view(columns as int, rows as int).board);
            assert(game@ =~~= init_view(columns as int, rows as int));
        }
        game
    }

    /// How many columns the board has.
    pub fn columns(&self) -> (n: usize)
        ensures
            n == self@.board.len(),
    {
        self.game_board.len()
    }

    /// How many rows the board has.
    pub fn rows(&self) -> (n: usize)
        requires
            self.wf(),
        ensures
            n == row_count(self@.board),
    {
        if self.game_board.len() == 0 {
            0
        } else {
            self.game_board[0].len()
        }
    }

    /// The owner of the cell in the given column and row.
    pub fn cell(&self, column: usize, row: usize) -> (p: Player)
        requires
            column < self@.board.len(),
            row < self@.board[column as int].len(),
        ensures
            p == self@.board[column as int][row as int],
    {
        self.game_board[column][row]
    }

    /// Drops the mover's piece into the lowest empty cell of the column;
    /// reports the column full when it has no empty cell, leaving the
    /// state untouched.
    fn place_piece(&mut self, column: usize) -> (result: Result<(), &'static str>)
        requires
            column < old(self)@.board.len(),
        ensures
            match result {
                Ok(_) => {
                    &&& !column_full(old(self)@.board[column as int])
                    &&& final(self)@.board == place(
                        old(self)@.board,
                        column as int,
                        old(self).current,
                    )
                    &&& final(self).current == old(self).current
                    &&& final(self).status == old(self).status
                    &&& final(self).winner == old(self).winner
                },
                Err(m) => {
                    &&& column_full(old(self)@.board[column as int])
                    &&& *final(self) == *old(self)
                    &&& m@ == column_full_message()
                },
            },
    {
        let rows = self.game_board[column].len();
        let mut row: usize = 0;
        while row < rows
            invariant
                *self == *old(self),
                column < self.game_board@.len(),
                rows == self.game_board@[column as int]@.len(),
                row <= rows,
                forall|i: int|
                    0 <= i < row ==> self.game_board@[column as int]@[i] != Player::Empty,
            decreases rows - row,
        {
            if self.game_board[column][row] == Player::Empty {
                proof {
                    lemma_first_empty_at(self.game_board@[column as int]@, row as int);
                }
                let ghost before = self@.board;
                self.game_board[column][row] = self.current;
                proof {
                    assert(self@.board =~~= place(before, column as int, old(self).current));
                }
                return Ok(());
            }
            row += 1;
        }
        Err("Column is full")
    }

    /// The abstract board reads back the executable columns, cell for cell.
    proof fn lemma_view_board(&self)
        ensures
            self@.board.len() == self.game_board@.len(),
            forall|i: int|
                0 <= i < self.game_board@.len() ==> self@.board[i] == (
                #[trigger] self.game_board@[i])@,
    {
    }

    /// Whether the piece at the cell starts a line of four in at least one
    /// of the four directions.
    fn has_four_connected(&self, column: usize, row: usize) -> (found: bool)
        requires
            self.wf(),
            column < self@.board.len(),
            row < row_count(self@.board),
        ensures
            found == wins_at(self@.board, column as int, row as int),
    {
        proof {
            self.lemma_view_board();
        }
        self.has_four_connected_horizontally(column, row)
            || self.has_four_connected_vertically(column, row)
            || self.has_four_connected_diagonally(column, row)
            || self.has_four_connected_reverse_diagonally(column, row)
    }

    /// Whether the cell starts a line of four to the right.
    fn has_four_connected_horizontally(&self, column: usize, row: usize) -> (found: bool)
        requires
            self.wf(),
            column < self@.board.len(),
            row < row_count(self@.board),
        ensures
            found == wins_horizontally(self@.board, column as int, row as int),
    {
        proof {
            self.lemma_view_board();
        }
        self.game_board.len() - column > 3
            && self.game_board[column][row] != Player::Empty
            && self.game_board[column][row] == self.game_board[column + 1][row]
            && self.game_board[column][row] == self.game_board[column + 2][row]
            && self.game_board[column][row] == self.game_board[column + 3][row]
    }

    /// Whether the cell starts a line of four going up.
    fn has_four_connected_vertically(&self, column: usize, row: usize) -> (found: bool)
        requires
            self.wf(),
            column < self@.board.len(),
            row < row_count(self@.board),
        ensures
            found == wins_vertically(self@.board, column as int, row as int),
    {
        proof {
            self.lemma_view_board();
        }
        self.game_board[column].len() - row > 3
            && self.game_board[column][row] != Player::Empty
            && self.game_board[column][row] == self.game_board[column][row + 1]
            && self.game_board[column][row] == self.game_board[column][row + 2]
            && self.game_board[column][row] == self.game_board[column][row + 3]
    }

    /// Whether the cell starts a line of four rising to the right.
    fn has_four_connected_diagonally(&self, column: usize, row: usize) -> (found: bool)
        requires
            self.wf(),
            column < self@.board.len(),
            row < row_count(self@.board),
        ensures
            found == wins_diagonally(self@.board, column as int, row as int),
    {
        proof {
            self.lemma_view_board();
        }
        self.game_board.len() - column > 3
            && self.game_board[column].len() - row > 3
            && self.game_board[column][row] != Player::Empty
            && self.game_board[column][row] == self.game_board[column + 1][row + 1]
            && self.game_board[column][row] == self.game_board[column + 2][row + 2]
            && self.game_board[column][row] == self.game_board[column + 3][row + 3]
    }

    /// Whether the cell starts a line of four rising to the left.
    fn has_four_connected_reverse_diagonally(&self, column: usize, row: usize) -> (found: bool)
        requires
            self.wf(),
            column < self@.board.len(),
            row < row_count(self@.board),
        ensures
            found == wins_reverse_diagonally(self@.board, column as int, row as int),
    {
        proof {
            self.lemma_view_board();
        }
        column >= 3
            && self.game_board[column].len() - row > 3
            && self.game_board[column][row] != Player::Empty
            && self.game_board[column][row] == self.game_board[column - 1][row + 1]
            && self.game_board[column][row] == self.game_board[column - 2][row + 2]
            && self.game_board[column][row] == self.game_board[column - 3][row + 3]
    }

    /// Plays the current player's piece in the (zero-indexed) column.
    ///
    /// A move on a finished game, on a column the board does not have, or
    /// on a full column is rejected, and the error hands the state back
    /// unchanged. A legal move drops the piece into the lowest empty cell,
    /// then scans the whole board: a line of four completes the game for
    /// the mover, a board with no empty cell left is a draw, and otherwise
    /// the turn passes to the other player.
    pub fn play_on_column(self, column: usize) -> (result: Result<Game, GameError>)
        requires
            self.wf(),
        ensures
            match result {
                Ok(next) => {
                    &&& move_allowed(self@, column as int)
                    &&& next@ == next_state(self@, column as int)
                    &&& next.wf()
                },
                Err(error) => {
                    &&& !move_allowed(self@, column as int)
                    &&& error.previous_state == self
                    &&& error.message@ == rejection_message(self@, column as int)
                },
            },
    {
        if self.status != GameStatus::Started {
            return Err(GameError::with_message("The game is already over.", self));
        }
        if column >= self.game_board.len() {
            return Err(
                GameError::with_message("Game board does not have that many columns.", self),
            );
        }
        let ghost previous = self@;
        let mut state = self;
        if let Err(message) = state.place_piece(column) {
            return Err(GameError::with_message(message, state));
        }
        proof {
            lemma_place_shape(previous.board, column as int, previous.current);
            lemma_next_state_wf(previous, column as int);
        }
        let columns = state.game_board.len();
        let mut found_empty = false;
        let mut c: usize = 0;
        while c < columns
            invariant
                previous == self@,
                previous.wf(),
                move_allowed(previous, column as int),
                state@.board == place(previous.board, column as int, previous.current),
                state.current == previous.current,
                state.status == GameStatus::Started,
                state.wf(),
                next_state(previous, column as int).wf(),
                columns == state@.board.len(),
                c <= columns,
                forall|c2: int, r2: int|
                    0 <= c2 < c && 0 <= r2 < row_count(state@.board) ==> !wins_at(
                        state@.board,
                        c2,
                        r2,
                    ),
                found_empty <==> !board_full_before(state@.board, c as int),
            decreases columns - c,
        {
            let rows = state.game_board[c].len();
            let mut r: usize = 0;
            while r < rows
                invariant
                    previous == self@,
                    previous.wf(),
                    move_allowed(previous, column as int),
                    state@.board == place(previous.board, column as int, previous.current),
                    state.current == previous.current,
                    state.status == GameStatus::Started,
                    state.wf(),
                    next_state(previous, column as int).wf(),
                    columns == state@.board.len(),
                    c < columns,
                    rows == state@.board[c as int].len(),
                    r <= rows,
                    forall|c2: int, r2: int|
                        0 <= c2 < c && 0 <= r2 < row_count(state@.board) ==> !wins_at(
                            state@.board,
                            c2,
                            r2,
                        ),
                    forall|r2: int|
                        0 <= r2 < r ==> !wins_at(state@.board, c as int, r2),
                    found_empty <==> !(board_full_before(state@.board, c as int)
                        && column_full_below(state@.board[c as int], r as int)),
                decreases rows - r,
            {
                if state.game_board[c][r] == Player::Empty {
                    found_empty = true;
                } else if state.has_four_connected(c, r) {
                    state.status = GameStatus::Completed;
                    state.winner = Some(state.current);
                    proof {
                        assert(wins_at(state@.board, c as int, r as int));
                        assert(has_winner(state@.board));
                        assert(state@ =~~= next_state(previous, column as int));
                    }
                    return Ok(state);
                }
                r += 1;
            }
            c += 1;
        }
        proof {
            assert forall|c2: int, r2: int| !(#[trigger] wins_at(state@.board, c2, r2)) by {
                if 0 <= c2 < columns && 0 <= r2 < row_count(state@.board) {
                } else {
                }
            }
            assert(!has_winner(state@.board));
        }
        if !found_empty {
            state.status = GameStatus::Draw;
            proof {
                assert(board_full(state@.board));
                assert(state@ =~~= next_state(previous, column as int));
            }
            return Ok(state);
        }
        state.current = state.current.toggle();
        proof {
            assert(!board_full(state@.board));
            assert(state@ =~~= next_state(previous, column as int));
        }
        Ok(state)
    }
}

} // verus!
