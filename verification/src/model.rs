//! The mathematical model of the game: the value types, an abstract view of a
//! game state, and the spec functions that define move acceptance, the state
//! transition, and terminal (win/draw) evaluation.

use vstd::prelude::*;

verus! {

/// One of the two players. `O` moves first in a fresh game.
#[derive(Clone, Copy, Debug, PartialEq, Eq, Structural)]
pub enum Player {
    X,
    O,
}

/// The state of one board cell: empty, or claimed by a player.
#[derive(Clone, Copy, Debug, PartialEq, Eq, Structural)]
pub enum TileOccupancy {
    Occupied(Player),
    Empty,
}

/// The terminal result of a game: a draw, or a decisive win by one player.
#[derive(Clone, Copy, Debug, PartialEq, Eq, Structural)]
pub enum Outcome {
    Draw,
    Decisive(Player),
}

/// Why a move was rejected. Every rejection leaves the game unchanged.
#[derive(Clone, Copy, Debug, PartialEq, Eq, Structural)]
pub enum MoveError {
    /// An outcome was already recorded; the game accepts no further moves.
    GameAlreadyOver,
    /// The requested index does not name one of the 9 cells.
    InvalidPosition,
    /// The requested cell is already claimed.
    CellOccupied,
}

/// The one-character label of a player.
pub open spec fn player_char(p: Player) -> char {
    match p {
        Player::X => 'X',
        Player::O => 'O',
    }
}

/// The one-character depiction of a cell: the owner's label, or a blank.
pub open spec fn mark_char(t: TileOccupancy) -> char {
    match t {
        TileOccupancy::Occupied(p) => player_char(p),
        TileOccupancy::Empty => ' ',
    }
}

/// The rendered text of board row `r` (0..2): the row's three cells, each
/// preceded by a vertical bar, then a blank and a line break.
pub open spec fn row_view(s: Seq<TileOccupancy>, r: int) -> Seq<char> {
    seq![
        '|',
        mark_char(s[3 * r]),
        '|',
        mark_char(s[3 * r + 1]),
        '|',
        mark_char(s[3 * r + 2]),
        ' ',
        '\r',
        '\n',
    ]
}

/// The rendered text of a whole board: a leading line break, then the three
/// rows in row-major order.
pub open spec fn render_view(s: Seq<TileOccupancy>) -> Seq<char> {
    seq!['\r', '\n'] + row_view(s, 0) + row_view(s, 1) + row_view(s, 2)
}

impl Player {
    /// The one-character label of this player.
    pub fn as_char(&self) -> (c: char)
        ensures
            c == player_char(*self),
    {
        match self {
            Player::X => 'X',
            Player::O => 'O',
        }
    }
}

/// The opponent of `p`.
pub open spec fn other_player(p: Player) -> Player {
    match p {
        Player::X => Player::O,
        Player::O => Player::X,
    }
}

/// Abstract view of a game state: the 9 cell occupancies in row-major order,
/// the player entitled to move next, and the recorded outcome, if any.
#[verifier::ext_equal]
pub ghost struct GameView {
    pub board: Seq<TileOccupancy>,
    pub active: Player,
    pub result: Option<Outcome>,
}

/// A board is well formed when it has exactly 9 cells.
pub open spec fn board_wf(s: Seq<TileOccupancy>) -> bool {
    s.len() == 9
}

/// The view of a fresh game: all cells empty, `O` to move, no outcome.
pub open spec fn initial_view() -> GameView {
    GameView {
        board: Seq::new(9, |i: int| TileOccupancy::Empty),
        active: Player::O,
        result: None,
    }
}

/// Cell `i` is claimed by `p`.
pub open spec fn cell_owned(s: Seq<TileOccupancy>, i: int, p: Player) -> bool {
    s[i] == TileOccupancy::Occupied(p)
}

/// All three of the cells `a`, `b`, `c` are claimed by `p`.
pub open spec fn triple_owned(s: Seq<TileOccupancy>, a: int, b: int, c: int, p: Player) -> bool {
    cell_owned(s, a, p) && cell_owned(s, b, p) && cell_owned(s, c, p)
}

/// `p` owns one of the 8 winning triples: the 3 rows, the 3 columns, or the
/// 2 diagonals of the 3x3 grid.
pub open spec fn line_won_by(s: Seq<TileOccupancy>, p: Player) -> bool {
    ||| triple_owned(s, 0, 1, 2, p)
    ||| triple_owned(s, 3, 4, 5, p)
    ||| triple_owned(s, 6, 7, 8, p)
    ||| triple_owned(s, 0, 3, 6, p)
    ||| triple_owned(s, 1, 4, 7, p)
    ||| triple_owned(s, 2, 5, 8, p)
    ||| triple_owned(s, 0, 4, 8, p)
    ||| triple_owned(s, 2, 4, 6, p)
}

/// Every cell is claimed by someone.
pub open spec fn board_full(s: Seq<TileOccupancy>) -> bool {
    forall|i: int| 0 <= i < 9 ==> (#[trigger] s[i]) is Occupied
}

/// The decisive result read off a board: `Decisive(p)` when `p` owns a
/// winning triple. In a legally played game at most one player can own a
/// triple; should both, `X` is preferred, fixing one deterministic answer.
pub open spec fn decisive_of(s: Seq<TileOccupancy>) -> Option<Outcome> {
    if line_won_by(s, Player::X) {
        Some(Outcome::Decisive(Player::X))
    } else if line_won_by(s, Player::O) {
        Some(Outcome::Decisive(Player::O))
    } else {
        None
    }
}

/// Terminal evaluation of a board: a win takes precedence over a draw; a
/// full board with no winning triple is a draw; otherwise play goes on.
pub open spec fn outcome_of(s: Seq<TileOccupancy>) -> Option<Outcome> {
    if decisive_of(s) is Some {
        decisive_of(s)
    } else if board_full(s) {
        Some(Outcome::Draw)
    } else {
        None
    }
}

/// Why a move at cell index `pos` is rejected in state `v`, or `None` when
/// it is accepted. The checks apply in this order: a finished game rejects
/// everything, then the index must name a cell, then the cell must be empty.
pub open spec fn move_rejection(v: GameView, pos: int) -> Option<MoveError> {
    if v.result is Some {
        Some(MoveError::GameAlreadyOver)
    } else if !(0 <= pos < 9) {
        Some(MoveError::InvalidPosition)
    } else if v.board[pos] is Occupied {
        Some(MoveError::CellOccupied)
    } else {
        None
    }
}

/// The move at `pos` is accepted in state `v`.
pub open spec fn move_accepted(v: GameView, pos: int) -> bool {
    move_rejection(v, pos) is None
}

/// The state after an accepted move at `pos`: the active player claims the
/// cell, the turn passes to the opponent, and the outcome is re-evaluated.
pub open spec fn step(v: GameView, pos: int) -> GameView {
    let board = v.board.update(pos, TileOccupancy::Occupied(v.active));
    GameView { board, active: other_player(v.active), result: outcome_of(board) }
}

/// One call of the move operation: the step when the move is accepted, the
/// unchanged state when it is rejected.
pub open spec fn apply_move(v: GameView, pos: int) -> GameView {
    if move_accepted(v, pos) {
        step(v, pos)
    } else {
        v
    }
}

/// A whole sequence of move attempts, applied first to last.
pub open spec fn run_moves(v: GameView, moves: Seq<int>) -> GameView
    decreases moves.len(),
{
    if moves.len() == 0 {
        v
    } else {
        run_moves(apply_move(v, moves[0]), moves.subrange(1, moves.len() as int))
    }
}

} // verus!
