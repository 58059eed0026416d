//! The mathematical model of the board engine.
//!
//! A board is a sequence of columns; each column lists its cells from row
//! zero (the bottom) upward. The spec functions here define what a
//! four-in-a-row is, which moves are allowed, and what the state after a
//! move looks like. The executable engine in [`crate::game`] is verified
//! against exactly these definitions.

use vstd::prelude::*;

use crate::game::GameStatus;
use crate::game::Player;

verus! {

/// The player who moves after `p`, for the two real players; the empty
/// marker is left fixed.
pub open spec fn toggled(p: Player) -> Player {
    match p {
        Player::One => Player::Two,
        Player::Two => Player::One,
        Player::Empty => Player::Empty,
    }
}

/// The abstract value of an executable board: one sequence of cells per
/// column.
pub open spec fn board_view(columns: Seq<Vec<Player>>) -> Seq<Seq<Player>> {
    columns.map_values(|column: Vec<Player>| column@)
}

/// Reading the abstract board reads the executable columns, cell for cell.
pub proof fn lemma_board_view(columns: Seq<Vec<Player>>)
    ensures
        board_view(columns).len() == columns.len(),
        forall|i: int|
            0 <= i < columns.len() ==> board_view(columns)[i] == (#[trigger] columns[i])@,
{
}

/// The common height of the columns (zero on a board without columns).
pub open spec fn row_count(b: Seq<Seq<Player>>) -> int {
    if b.len() == 0 {
        0
    } else {
        b[0].len() as int
    }
}

/// Every column has the same height.
pub open spec fn board_wf(b: Seq<Seq<Player>>) -> bool {
    forall|c: int| 0 <= c < b.len() ==> (#[trigger] b[c]).len() == row_count(b)
}

/// A game state, abstracted from the executable representation.
#[verifier::ext_equal]
pub struct GameView {
    pub board: Seq<Seq<Player>>,
    pub current: Player,
    pub status: GameStatus,
    pub winner: Option<Player>,
}

impl GameView {
    /// The state invariant: a rectangular board, a real player to move,
    /// and a status that agrees with the winner and the board.
    pub open spec fn wf(self) -> bool {
        &&& board_wf(self.board)
        &&& (self.current == Player::One || self.current == Player::Two)
        &&& match self.status {
            GameStatus::Started => self.winner is None,
            GameStatus::Completed => self.winner == Some(Player::One) || self.winner == Some(
                Player::Two,
            ),
            GameStatus::Draw => self.winner is None && board_full(self.board),
        }
    }
}

/// The state a fresh game starts in: an all-empty board of the given size,
/// player one to move.
pub open spec fn init_view(columns: int, rows: int) -> GameView {
    GameView {
        board: Seq::new(columns as nat, |c: int| Seq::new(rows as nat, |r: int| Player::Empty)),
        current: Player::One,
        status: GameStatus::Started,
        winner: None,
    }
}

/// No cell of the column is empty.
pub open spec fn column_full(column: Seq<Player>) -> bool {
    forall|r: int| 0 <= r < column.len() ==> column[r] != Player::Empty
}

/// No cell of the board is empty.
pub open spec fn board_full(b: Seq<Seq<Player>>) -> bool {
    forall|c: int| 0 <= c < b.len() ==> column_full(#[trigger] b[c])
}

/// No cell of the column below row `n` is empty.
pub open spec fn column_full_below(column: Seq<Player>, n: int) -> bool {
    forall|r: int| 0 <= r < n ==> column[r] != Player::Empty
}

/// No cell of the columns before `n` is empty.
pub open spec fn board_full_before(b: Seq<Seq<Player>>, n: int) -> bool {
    forall|c: int| 0 <= c < n ==> column_full(#[trigger] b[c])
}

/// The row a piece dropped into the column lands on: the lowest empty cell
/// (the column's length when the column is full).
pub open spec fn first_empty(column: Seq<Player>) -> int
    decreases column.len(),
{
    if column.len() == 0 {
        0
    } else if column[0] == Player::Empty {
        0
    } else {
        1 + first_empty(column.drop_first())
    }
}

/// What `first_empty` returns: the least index of an empty cell, or the
/// length of a full column.
pub proof fn lemma_first_empty(column: Seq<Player>)
    ensures
        0 <= first_empty(column) <= column.len(),
        first_empty(column) < column.len() ==> column[first_empty(column)] == Player::Empty,
        forall|r: int| 0 <= r < first_empty(column) ==> column[r] != Player::Empty,
        (first_empty(column) == column.len()) <==> column_full(column),
    decreases column.len(),
{
    if column.len() == 0 {
    } else if column[0] == Player::Empty {
        assert(!column_full(column));
    } else {
        let rest = column.drop_first();
        lemma_first_empty(rest);
        assert forall|r: int| 0 <= r < first_empty(column) implies column[r] != Player::Empty by {
            if r > 0 {
                assert(rest[r - 1] == column[r]);
            }
        }
        if column_full(column) {
            assert forall|r: int| 0 <= r < rest.len() implies rest[r] != Player::Empty by {
                assert(rest[r] == column[r + 1]);
            }
        }
    }
}

/// `first_empty` picks out any cell that is empty below only occupied cells.
pub proof fn lemma_first_empty_at(column: Seq<Player>, r: int)
    requires
        0 <= r < column.len(),
        column[r] == Player::Empty,
        forall|i: int| 0 <= i < r ==> column[i] != Player::Empty,
    ensures
        first_empty(column) == r,
    decreases column.len(),
{
    if column[0] == Player::Empty {
    } else {
        let rest = column.drop_first();
        assert forall|i: int| 0 <= i < r - 1 implies rest[i] != Player::Empty by {
            assert(rest[i] == column[i + 1]);
        }
        lemma_first_empty_at(rest, r - 1);
    }
}

/// The board after a piece of `p` is dropped into the column.
pub open spec fn place(b: Seq<Seq<Player>>, column: int, p: Player) -> Seq<Seq<Player>> {
    b.update(column, b[column].update(first_empty(b[column]), p))
}

/// Dropping a piece keeps the board rectangular and touches one cell only.
pub proof fn lemma_place_shape(b: Seq<Seq<Player>>, column: int, p: Player)
    requires
        board_wf(b),
        0 <= column < b.len(),
        !column_full(b[column]),
    ensures
        place(b, column, p).len() == b.len(),
        row_count(place(b, column, p)) == row_count(b),
        board_wf(place(b, column, p)),
        forall|c: int| 0 <= c < b.len() && c != column ==> place(b, column, p)[c] == b[c],
        place(b, column, p)[column] == b[column].update(first_empty(b[column]), p),
{
    lemma_first_empty(b[column]);
    let placed = place(b, column, p);
    assert(placed[column].len() == b[column].len());
    if column == 0 {
        assert(row_count(placed) == row_count(b));
    }
}

/// Four equal pieces in a row to the right of (`c`, `r`).
pub open spec fn wins_horizontally(b: Seq<Seq<Player>>, c: int, r: int) -> bool {
    &&& 0 <= c
    &&& c + 3 < b.len()
    &&& 0 <= r < row_count(b)
    &&& b[c][r] != Player::Empty
    &&& b[c][r] == b[c + 1][r]
    &&& b[c][r] == b[c + 2][r]
    &&& b[c][r] == b[c + 3][r]
}

/// Four equal pieces stacked upward from (`c`, `r`).
pub open spec fn wins_vertically(b: Seq<Seq<Player>>, c: int, r: int) -> bool {
    &&& 0 <= c < b.len()
    &&& 0 <= r
    &&& r + 3 < b[c].len()
    &&& b[c][r] != Player::Empty
    &&& b[c][r] == b[c][r + 1]
    &&& b[c][r] == b[c][r + 2]
    &&& b[c][r] == b[c][r + 3]
}

/// Four equal pieces rising to the right from (`c`, `r`).
pub open spec fn wins_diagonally(b: Seq<Seq<Player>>, c: int, r: int) -> bool {
    &&& 0 <= c
    &&& c + 3 < b.len()
    &&& 0 <= r
    &&& r + 3 < b[c].len()
    &&& b[c][r] != Player::Empty
    &&& b[c][r] == b[c + 1][r + 1]
    &&& b[c][r] == b[c + 2][r + 2]
    &&& b[c][r] == b[c + 3][r + 3]
}

/// Four equal pieces rising to the left from (`c`, `r`).
pub open spec fn wins_reverse_diagonally(b: Seq<Seq<Player>>, c: int, r: int) -> bool {
    &&& 3 <= c < b.len()
    &&& 0 <= r
    &&& r + 3 < b[c].len()
    &&& b[c][r] != Player::Empty
    &&& b[c][r] == b[c - 1][r + 1]
    &&& b[c][r] == b[c - 2][r + 2]
    &&& b[c][r] == b[c - 3][r + 3]
}

/// Some line of four starts at (`c`, `r`), in any of the four directions.
pub open spec fn wins_at(b: Seq<Seq<Player>>, c: int, r: int) -> bool {
    ||| wins_horizontally(b, c, r)
    ||| wins_vertically(b, c, r)
    ||| wins_diagonally(b, c, r)
    ||| wins_reverse_diagonally(b, c, r)
}

/// Some line of four starts somewhere on the board.
pub open spec fn has_winner(b: Seq<Seq<Player>>) -> bool {
    exists|c: int, r: int| wins_at(b, c, r)
}

/// The move is legal: the game still runs, the column exists and has room.
pub open spec fn move_allowed(v: GameView, column: int) -> bool {
    &&& v.status == GameStatus::Started
    &&& 0 <= column < v.board.len()
    &&& !column_full(v.board[column])
}

/// The state after a legal move: the piece is dropped, then the board is
/// scanned. A line of four completes the game for the mover; a board with
/// no room left and no line is a draw; otherwise the other player moves.
pub open spec fn next_state(v: GameView, column: int) -> GameView {
    let placed = place(v.board, column, v.current);
    if has_winner(placed) {
        GameView {
            board: placed,
            current: v.current,
            status: GameStatus::Completed,
            winner: Some(v.current),
        }
    } else if board_full(placed) {
        GameView { board: placed, current: v.current, status: GameStatus::Draw, winner: None }
    } else {
        GameView {
            board: placed,
            current: toggled(v.current),
            status: GameStatus::Started,
            winner: None,
        }
    }
}

/// A legal move taken from a well-formed state leads to a well-formed state.
pub proof fn lemma_next_state_wf(v: GameView, column: int)
    requires
        v.wf(),
        move_allowed(v, column),
    ensures
        next_state(v, column).wf(),
{
    lemma_place_shape(v.board, column, v.current);
}

/// The message a rejected move carries, fixed by the state and the column.
pub open spec fn rejection_message(v: GameView, column: int) -> Seq<char> {
    if v.status != GameStatus::Started {
        game_over_message()
    } else if !(0 <= column < v.board.len()) {
        out_of_bounds_message()
    } else {
        column_full_message()
    }
}

/// The message for a move after the game has ended.
pub open spec fn game_over_message() -> Seq<char> {
    "The game is already over."@
}

/// The message for a column the board does not have.
pub open spec fn out_of_bounds_message() -> Seq<char> {
    "Game board does not have that many columns."@
}

/// The message for a column with no empty cell.
pub open spec fn column_full_message() -> Seq<char> {
    "Column is full"@
}

} // verus!
