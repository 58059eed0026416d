//! The general laws of the engine, proved over the model in
//! [`crate::rules`].
//!
//! The laws of a single move live in the contract of
//! [`crate::game::Game::play_on_column`]: a move is accepted exactly when
//! it is allowed, a rejected move hands back the state it was tried on
//! unchanged, and the rejection reason is a function of that state and the
//! column alone, so the same illegal move meets the same rejection as
//! often as it is tried. The proof functions here state the laws that
//! speak about several moves at once.

use vstd::prelude::*;

use crate::game::GameStatus;
use crate::game::Player;
use crate::rules::first_empty;
use crate::rules::init_view;
use crate::rules::lemma_first_empty;
use crate::rules::lemma_next_state_wf;
use crate::rules::lemma_place_shape;
use crate::rules::move_allowed;
use crate::rules::next_state;
use crate::rules::toggled;
use crate::rules::GameView;

verus! {

/// Every move of the sequence is legal when the sequence is played in
/// order from `v`.
pub open spec fn all_moves_legal(v: GameView, moves: Seq<int>) -> bool
    decreases moves.len(),
{
    moves.len() == 0 || (move_allowed(v, moves[0]) && all_moves_legal(
        next_state(v, moves[0]),
        moves.drop_first(),
    ))
}

/// The state after the moves of the sequence are played in order from `v`.
pub open spec fn apply_moves(v: GameView, moves: Seq<int>) -> GameView
    decreases moves.len(),
{
    if moves.len() == 0 {
        v
    } else {
        apply_moves(next_state(v, moves[0]), moves.drop_first())
    }
}

/// The state invariant holds in every state a sequence of legal moves can
/// reach.
pub proof fn lemma_apply_moves_wf(v: GameView, moves: Seq<int>)
    requires
        v.wf(),
        all_moves_legal(v, moves),
    ensures
        apply_moves(v, moves).wf(),
    decreases moves.len(),
{
    if moves.len() > 0 {
        lemma_next_state_wf(v, moves[0]);
        lemma_apply_moves_wf(next_state(v, moves[0]), moves.drop_first());
    }
}

/// Turn alternation: while the game stays open the players alternate
/// strictly, so an even number of legal moves returns the turn to the
/// player who held it, and an odd number passes it to the other player.
pub proof fn lemma_turn_alternation(v: GameView, moves: Seq<int>)
    requires
        v.wf(),
        v.status == GameStatus::Started,
        all_moves_legal(v, moves),
        apply_moves(v, moves).status == GameStatus::Started,
    ensures
        apply_moves(v, moves).current == if moves.len() % 2 == 0 {
            v.current
        } else {
            toggled(v.current)
        },
    decreases moves.len(),
{
    if moves.len() > 0 {
        let stepped = next_state(v, moves[0]);
        let rest = moves.drop_first();
        lemma_next_state_wf(v, moves[0]);
        if rest.len() == 0 {
            assert(apply_moves(stepped, rest) == stepped);
        } else {
            assert(all_moves_legal(stepped, rest));
            assert(move_allowed(stepped, rest[0]));
            lemma_turn_alternation(stepped, rest);
        }
    }
}

/// From the start of a game, player one moves on the even turns and
/// player two on the odd ones.
pub proof fn lemma_players_alternate_from_start(columns: int, rows: int, moves: Seq<int>)
    requires
        all_moves_legal(init_view(columns, rows), moves),
        apply_moves(init_view(columns, rows), moves).status == GameStatus::Started,
    ensures
        apply_moves(init_view(columns, rows), moves).current == if moves.len() % 2 == 0 {
            Player::One
        } else {
            Player::Two
        },
{
    assert(init_view(columns, rows).wf());
    lemma_turn_alternation(init_view(columns, rows), moves);
}

/// A legal move drops exactly one piece: the moved-on column gains the
/// mover's piece in its lowest empty cell, every other column is
/// unchanged, and the column's lowest empty cell moves up.
pub proof fn lemma_move_fills_lowest_cell(v: GameView, column: int)
    requires
        v.wf(),
        move_allowed(v, column),
    ensures
        next_state(v, column).board.len() == v.board.len(),
        forall|c: int|
            0 <= c < v.board.len() && c != column ==> next_state(v, column).board[c] == v.board[c],
        next_state(v, column).board[column] == v.board[column].update(
            first_empty(v.board[column]),
            v.current,
        ),
        0 <= first_empty(v.board[column]) < v.board[column].len(),
        first_empty(next_state(v, column).board[column]) > first_empty(v.board[column]),
{
    lemma_place_shape(v.board, column, v.current);
    lemma_first_empty(v.board[column]);
    let before = v.board[column];
    let landing = first_empty(before);
    let after = before.update(landing, v.current);
    lemma_first_empty(after);
    let landing_after = first_empty(after);
    if landing_after <= landing {
        if landing_after < landing {
            assert(after[landing_after] == before[landing_after]);
        }
        assert(after[landing_after] == Player::Empty);
        assert(false);
    }
}

/// Playing the same column `k` times in a row raises its lowest empty
/// cell by at least `k`, while the board keeps its shape.
pub proof fn lemma_column_fills(v: GameView, column: int, k: nat)
    requires
        v.wf(),
        all_moves_legal(v, Seq::new(k, |i: int| column)),
    ensures
        apply_moves(v, Seq::new(k, |i: int| column)).wf(),
        apply_moves(v, Seq::new(k, |i: int| column)).board.len() == v.board.len(),
        apply_moves(v, Seq::new(k, |i: int| column)).board[column].len() == v.board[column].len(),
        first_empty(apply_moves(v, Seq::new(k, |i: int| column)).board[column]) >= first_empty(
            v.board[column],
        ) + k,
    decreases k,
{
    if k > 0 {
        let moves = Seq::new(k, |i: int| column);
        let stepped = next_state(v, column);
        let rest = Seq::new((k - 1) as nat, |i: int| column);
        lemma_next_state_wf(v, column);
        lemma_move_fills_lowest_cell(v, column);
        assert(moves.drop_first() =~= rest);
        assert(all_moves_legal(stepped, rest));
        lemma_column_fills(stepped, column, (k - 1) as nat);
        lemma_first_empty(apply_moves(stepped, rest).board[column]);
    }
}

/// Filling a column of height `R` with `R` legal moves leaves no room in
/// it: the move after that on the same column is rejected.
pub proof fn lemma_filled_column_rejects_next_move(v: GameView, column: int)
    requires
        v.wf(),
        0 <= column < v.board.len(),
        all_moves_legal(v, Seq::new(v.board[column].len(), |i: int| column)),
    ensures
        !move_allowed(
            apply_moves(v, Seq::new(v.board[column].len(), |i: int| column)),
            column,
        ),
{
    let moves = Seq::new(v.board[column].len(), |i: int| column);
    let end_state = apply_moves(v, moves);
    lemma_column_fills(v, column, v.board[column].len());
    lemma_first_empty(v.board[column]);
    lemma_first_empty(end_state.board[column]);
}

/// A column that already holds as many pieces as it has cells rejects the
/// next move on it.
pub proof fn lemma_full_column_rejected(v: GameView, column: int)
    requires
        v.wf(),
        0 <= column < v.board.len(),
        first_empty(v.board[column]) == v.board[column].len(),
    ensures
        !move_allowed(v, column),
{
    lemma_first_empty(v.board[column]);
}

/// Completed and Draw are absorbing: once the game has left Started, no
/// move is allowed any more.
pub proof fn lemma_terminal_is_absorbing(v: GameView, column: int)
    requires
        v.status != GameStatus::Started,
    ensures
        !move_allowed(v, column),
{
}

/// A move that completes the game names the mover as the winner.
pub proof fn lemma_winner_is_mover(v: GameView, column: int)
    requires
        v.wf(),
        move_allowed(v, column),
        next_state(v, column).status == GameStatus::Completed,
    ensures
        next_state(v, column).winner == Some(v.current),
{
}

} // verus!
