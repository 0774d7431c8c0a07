//! General laws of the game, proved over the model in [`crate::model`].

use vstd::prelude::*;

use crate::model::{
    GameView, Outcome, Player, TileOccupancy, apply_move, board_wf, line_won_by, move_accepted,
    other_player, outcome_of, run_moves, step,
};

verus! {

/// Law: after any accepted move, the active player differs from the active
/// player immediately before that move, and is exactly the opponent.
pub proof fn lemma_turn_alternation(v: GameView, pos: int)
    requires
        move_accepted(v, pos),
    ensures
        step(v, pos).active == other_player(v.active),
        step(v, pos).active != v.active,
{
}

/// Law: an accepted move keeps the board well formed and never clears or
/// reassigns an occupied cell; only the one empty cell it claims changes.
pub proof fn lemma_occupied_cells_persist(v: GameView, pos: int)
    requires
        board_wf(v.board),
        move_accepted(v, pos),
    ensures
        board_wf(step(v, pos).board),
        forall|i: int|
            0 <= i < 9 && (#[trigger] v.board[i]) is Occupied ==> step(v, pos).board[i]
                == v.board[i],
{
}

/// Law: over any sequence of move attempts, a cell is claimed at most once:
/// a cell occupied at any point keeps its owner through every later attempt,
/// accepted or rejected, and the board stays well formed.
pub proof fn lemma_cells_claimed_once(v: GameView, moves: Seq<int>)
    requires
        board_wf(v.board),
    ensures
        board_wf(run_moves(v, moves).board),
        forall|i: int|
            0 <= i < 9 && (#[trigger] v.board[i]) is Occupied ==> run_moves(v, moves).board[i]
                == v.board[i],
    decreases moves.len(),
{
    if moves.len() > 0 {
        let w = apply_move(v, moves[0]);
        if move_accepted(v, moves[0]) {
            lemma_occupied_cells_persist(v, moves[0]);
        }
        lemma_cells_claimed_once(w, moves.subrange(1, moves.len() as int));
    }
}

/// Law: a finished game is frozen. Once an outcome is recorded, every later
/// move attempt, whatever its position, is rejected and changes nothing.
pub proof fn lemma_finished_game_is_frozen(v: GameView, moves: Seq<int>)
    requires
        v.result is Some,
    ensures
        run_moves(v, moves) == v,
    decreases moves.len(),
{
    if moves.len() > 0 {
        lemma_finished_game_is_frozen(v, moves.subrange(1, moves.len() as int));
    }
}

/// Law: a win takes precedence over a draw. A board on which `p` owns a
/// completed triple — full or not — never evaluates to a draw; and when the
/// opponent owns no triple, it evaluates to a decisive win by `p`.
pub proof fn lemma_win_precedence(s: Seq<TileOccupancy>, p: Player)
    requires
        line_won_by(s, p),
    ensures
        outcome_of(s) is Some,
        outcome_of(s) != Some(Outcome::Draw),
        !line_won_by(s, other_player(p)) ==> outcome_of(s) == Some(Outcome::Decisive(p)),
{
}

} // verus!
