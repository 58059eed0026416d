//! The four line directions as named win-condition values.
//!
//! Each condition carries its meaning as a spec-level predicate, and its
//! executable check is proved against that predicate. The conditions are
//! collected as plain enum values rather than trait objects: four known
//! directions need a fixed dispatch table, not dynamic dispatch. The law
//! [`lemma_default_conditions_cover`] states that the default list, taken
//! together, recognises exactly the lines the engine's own scan does.

use vstd::prelude::*;

use crate::game::Player;
use crate::rules::board_view;
use crate::rules::board_wf;
use crate::rules::lemma_board_view;
use crate::rules::row_count;
use crate::rules::wins_at;
use crate::rules::wins_diagonally;
use crate::rules::wins_horizontally;
use crate::rules::wins_reverse_diagonally;
use crate::rules::wins_vertically;

verus! {

/// One way of winning: a predicate on a board cell, together with its
/// meaning on the abstract board.
pub trait WinCondition: Sized {
    /// What the condition means, stated over the abstract board.
    spec fn met_spec(&self, b: Seq<Seq<Player>>, column: int, row: int) -> bool;

    /// Whether a line of four in this direction starts at the cell.
    fn is_met(&self, board: &Vec<Vec<Player>>, column: usize, row: usize) -> (met: bool)
        requires
            board_wf(board_view(board@)),
            column < board@.len(),
            row < row_count(board_view(board@)),
        ensures
            met == self.met_spec(board_view(board@), column as int, row as int),
    ;
}

/// Four equal pieces stacked upward.
#[derive(Debug, Clone)]
pub struct VerticalWinCondition {}

impl VerticalWinCondition {
    /// The condition as a boxed value, ready for a caller-assembled list.
    pub fn boxed() -> Box<VerticalWinCondition> {
        Box::new(VerticalWinCondition {})
    }
}

impl WinCondition for VerticalWinCondition {
    open spec fn met_spec(&self, b: Seq<Seq<Player>>, column: int, row: int) -> bool {
        wins_vertically(b, column, row)
    }

    fn is_met(&self, board: &Vec<Vec<Player>>, column: usize, row: usize) -> (met: bool) {
        proof {
            lemma_board_view(board@);
        }
        board[column].len() - row > 3
            && board[column][row] != Player::Empty
            && board[column][row] == board[column][row + 1]
            && board[column][row] == board[column][row + 2]
            && board[column][row] == board[column][row + 3]
    }
}

/// Four equal pieces in a row to the right.
#[derive(Debug, Clone)]
pub struct HorizontalWinCondition {}

impl HorizontalWinCondition {
    /// The condition as a boxed value, ready for a caller-assembled list.
    pub fn boxed() -> Box<HorizontalWinCondition> {
        Box::new(HorizontalWinCondition {})
    }
}

impl WinCondition for HorizontalWinCondition {
    open spec fn met_spec(&self, b: Seq<Seq<Player>>, column: int, row: int) -> bool {
        wins_horizontally(b, column, row)
    }

    fn is_met(&self, board: &Vec<Vec<Player>>, column: usize, row: usize) -> (met: bool) {
        proof {
            lemma_board_view(board@);
        }
        board.len() - column > 3
            && board[column][row] != Player::Empty
            && board[column][row] == board[column + 1][row]
            && board[column][row] == board[column + 2][row]
            && board[column][row] == board[column + 3][row]
    }
}

/// Four equal pieces rising to the right.
#[derive(Debug, Clone)]
pub struct DiagonalWinCondition {}

impl DiagonalWinCondition {
    /// The condition as a boxed value, ready for a caller-assembled list.
    pub fn boxed() -> Box<DiagonalWinCondition> {
        Box::new(DiagonalWinCondition {})
    }
}

impl WinCondition for DiagonalWinCondition {
    open spec fn met_spec(&self, b: Seq<Seq<Player>>, column: int, row: int) -> bool {
        wins_diagonally(b, column, row)
    }

    fn is_met(&self, board: &Vec<Vec<Player>>, column: usize, row: usize) -> (met: bool) {
        proof {
            lemma_board_view(board@);
        }
        board.len() - column > 3
            && board[column].len() - row > 3
            && board[column][row] != Player::Empty
            && board[column][row] == board[column + 1][row + 1]
            && board[column][row] == board[column + 2][row + 2]
            && board[column][row] == board[column + 3][row + 3]
    }
}

/// Four equal pieces rising to the left.
#[derive(Debug, Clone)]
pub struct ReverseDiagonalWinCondition {}

impl ReverseDiagonalWinCondition {
    /// The condition as a boxed value, ready for a caller-assembled list.
    pub fn boxed() -> Box<ReverseDiagonalWinCondition> {
        Box::new(ReverseDiagonalWinCondition {})
    }
}

impl WinCondition for ReverseDiagonalWinCondition {
    open spec fn met_spec(&self, b: Seq<Seq<Player>>, column: int, row: int) -> bool {
        wins_reverse_diagonally(b, column, row)
    }

    fn is_met(&self, board: &Vec<Vec<Player>>, column: usize, row: usize) -> (met: bool) {
        proof {
            lemma_board_view(board@);
        }
        column >= 3
            && board[column].len() - row > 3
            && board[column][row] != Player::Empty
            && board[column][row] == board[column - 1][row + 1]
            && board[column][row] == board[column - 2][row + 2]
            && board[column][row] == board[column - 3][row + 3]
    }
}

/// Any of the four directions, as one plain value.
#[derive(Debug, Clone)]
pub enum WinConditions {
    Vertical(VerticalWinCondition),
    Horizontal(HorizontalWinCondition),
    Diagonal(DiagonalWinCondition),
    ReverseDiagonal(ReverseDiagonalWinCondition),
}

impl WinCondition for WinConditions {
    open spec fn met_spec(&self, b: Seq<Seq<Player>>, column: int, row: int) -> bool {
        match self {
            WinConditions::Vertical(condition) => condition.met_spec(b, column, row),
            WinConditions::Horizontal(condition) => condition.met_spec(b, column, row),
            WinConditions::Diagonal(condition) => condition.met_spec(b, column, row),
            WinConditions::ReverseDiagonal(condition) => condition.met_spec(b, column, row),
        }
    }

    fn is_met(&self, board: &Vec<Vec<Player>>, column: usize, row: usize) -> (met: bool) {
        match self {
            WinConditions::Vertical(condition) => condition.is_met(board, column, row),
            WinConditions::Horizontal(condition) => condition.is_met(board, column, row),
            WinConditions::Diagonal(condition) => condition.is_met(board, column, row),
            WinConditions::ReverseDiagonal(condition) => condition.is_met(board, column, row),
        }
    }
}

/// The standard rule set, in the order the conditions are polled.
pub open spec fn default_condition_seq() -> Seq<WinConditions> {
    seq![
        WinConditions::Vertical(VerticalWinCondition {}),
        WinConditions::Horizontal(HorizontalWinCondition {}),
        WinConditions::Diagonal(DiagonalWinCondition {}),
        WinConditions::ReverseDiagonal(ReverseDiagonalWinCondition {}),
    ]
}

/// The standard rule set as a list a game can be played with.
pub fn default_win_conditions() -> (conditions: Vec<WinConditions>)
    ensures
        conditions@ == default_condition_seq(),
{
    let mut conditions: Vec<WinConditions> = Vec::new();
    conditions.push(WinConditions::Vertical(VerticalWinCondition {}));
    conditions.push(WinConditions::Horizontal(HorizontalWinCondition {}));
    conditions.push(WinConditions::Diagonal(DiagonalWinCondition {}));
    conditions.push(WinConditions::ReverseDiagonal(ReverseDiagonalWinCondition {}));
    proof {
        assert(conditions@ =~= default_condition_seq());
    }
    conditions
}

/// Some condition in the list is met at the cell.
pub open spec fn any_condition_met_spec(
    conditions: Seq<WinConditions>,
    b: Seq<Seq<Player>>,
    column: int,
    row: int,
) -> bool {
    exists|i: int| 0 <= i < conditions.len() && (#[trigger] conditions[i]).met_spec(b, column, row)
}

/// Polls the conditions in order and reports whether any is met at the
/// cell.
pub fn any_condition_met(
    conditions: &Vec<WinConditions>,
    board: &Vec<Vec<Player>>,
    column: usize,
    row: usize,
) -> (met: bool)
    requires
        board_wf(board_view(board@)),
        column < board@.len(),
        row < row_count(board_view(board@)),
    ensures
        met == any_condition_met_spec(conditions@, board_view(board@), column as int, row as int),
{
    let mut i: usize = 0;
    while i < conditions.len()
        invariant
            board_wf(board_view(board@)),
            column < board@.len(),
            row < row_count(board_view(board@)),
            i <= conditions@.len(),
            forall|j: int|
                0 <= j < i ==> !(#[trigger] conditions@[j]).met_spec(
                    board_view(board@),
                    column as int,
                    row as int,
                ),
        decreases conditions@.len() - i,
    {
        if conditions[i].is_met(board, column, row) {
            return true;
        }
        i += 1;
    }
    false
}

/// The four standard conditions, taken together, recognise exactly the
/// lines the engine's own scan recognises.
pub proof fn lemma_default_conditions_cover(b: Seq<Seq<Player>>, column: int, row: int)
    ensures
        any_condition_met_spec(default_condition_seq(), b, column, row) == wins_at(b, column, row),
{
    let conditions = default_condition_seq();
    if wins_at(b, column, row) {
        if wins_vertically(b, column, row) {
            assert(conditions[0].met_spec(b, column, row));
        } else if wins_horizontally(b, column, row) {
            assert(conditions[1].met_spec(b, column, row));
        } else if wins_diagonally(b, column, row) {
            assert(conditions[2].met_spec(b, column, row));
        } else {
            assert(conditions[3].met_spec(b, column, row));
        }
    }
    if any_condition_met_spec(conditions, b, column, row) {
        let i = choose|i: int|
            0 <= i < conditions.len() && (#[trigger] conditions[i]).met_spec(b, column, row);
        assert(wins_at(b, column, row));
    }
}

} // verus!
