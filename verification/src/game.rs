//! The executable game state: the board of 9 labelled tiles, the active
//! player, and the recorded outcome, together with the single validated
//! move operation and its derived queries.

use vstd::prelude::*;

use crate::model::{
    GameView, MoveError, Outcome, Player, TileOccupancy, board_full, cell_owned, decisive_of,
    initial_view, line_won_by, mark_char, move_rejection, outcome_of, render_view, row_view, step,
};

verus! {

/// One board cell: its fixed index (0..8) and its occupancy.
#[derive(Clone, Copy, Debug, PartialEq, Eq, Structural)]
pub struct Tile {
    pub label: u8,
    pub tile_occupancy: TileOccupancy,
}

/// The aggregate game state. All mutation goes through [`Game::attempt_move`]
/// and [`Game::set_tile`]; the invariant [`Game::wf`] (9 tiles, labelled by
/// their index) is established by [`Game::new`] and preserved throughout.
pub struct Game {
    result: Option<Outcome>,
    active_turn: Player,
    board: Vec<Tile>,
}

impl View for Game {
    type V = GameView;

    closed spec fn view(&self) -> GameView {
        GameView {
            board: self.board@.map(|i: int, t: Tile| t.tile_occupancy),
            active: self.active_turn,
            result: self.result,
        }
    }
}

impl Game {
    /// Well-formedness: exactly 9 tiles, each labelled with its own index.
    pub closed spec fn wf(self) -> bool {
        &&& self.board.len() == 9
        &&& forall|i: int| 0 <= i < 9 ==> (#[trigger] self.board[i]).label == i
    }

    /// A fresh game: all 9 cells empty, no outcome, `O` to move.
    pub fn new() -> (g: Game)
        ensures
            g.wf(),
            g@ == initial_view(),
    {
        let mut board: Vec<Tile> = Vec::new();
        let mut i: u8 = 0;
        while i < 9
            invariant
                i <= 9,
                board.len() == i,
                forall|j: int| 0 <= j < i ==> (#[trigger] board[j]).label == j,
                forall|j: int|
                    0 <= j < i ==> (#[trigger] board[j]).tile_occupancy == TileOccupancy::Empty,
            decreases 9 - i,
        {
            board.push(Tile { label: i, tile_occupancy: TileOccupancy::Empty });
            i = i + 1;
        }
        let g = Game { result: None, active_turn: Player::O, board };
        proof {
            assert(g@.board =~= initial_view().board);
            assert(g@ =~= initial_view());
        }
        g
    }

    /// The player entitled to make the next move.
    pub fn active_player(&self) -> (p: Player)
        ensures
            p == self@.active,
    {
        self.active_turn
    }

    /// The recorded outcome, or `None` while the game is in progress.
    pub fn outcome(&self) -> (r: Option<Outcome>)
        ensures
            r == self@.result,
    {
        self.result
    }

    /// The tile labelled `label`, or `None` when no such cell exists.
    pub fn tile(&self, label: u8) -> (r: Option<Tile>)
        requires
            self.wf(),
        ensures
            label < 9 ==> r == Some((Tile {
                label,
                tile_occupancy: self@.board[label as int],
            })),
            label >= 9 ==> r is None,
    {
        if label < 9 {
            Some(self.board[label as usize])
        } else {
            None
        }
    }

    /// Cell `i` is claimed by `p`.
    fn cell_is(&self, i: u8, p: Player) -> (r: bool)
        requires
            self.wf(),
            i < 9,
        ensures
            r == cell_owned(self@.board, i as int, p),
    {
        self.board[i as usize].tile_occupancy == TileOccupancy::Occupied(p)
    }

    /// `p` owns one of the 8 winning triples.
    fn has_line(&self, p: Player) -> (r: bool)
        requires
            self.wf(),
        ensures
            r == line_won_by(self@.board, p),
    {
        (self.cell_is(0, p) && self.cell_is(1, p) && self.cell_is(2, p))
            || (self.cell_is(3, p) && self.cell_is(4, p) && self.cell_is(5, p))
            || (self.cell_is(6, p) && self.cell_is(7, p) && self.cell_is(8, p))
            || (self.cell_is(0, p) && self.cell_is(3, p) && self.cell_is(6, p))
            || (self.cell_is(1, p) && self.cell_is(4, p) && self.cell_is(7, p))
            || (self.cell_is(2, p) && self.cell_is(5, p) && self.cell_is(8, p))
            || (self.cell_is(0, p) && self.cell_is(4, p) && self.cell_is(8, p))
            || (self.cell_is(2, p) && self.cell_is(4, p) && self.cell_is(6, p))
    }

    /// The decisive result read off the current board: `Some(Decisive(p))`
    /// exactly when a player owns a completed triple, `None` otherwise.
    pub fn is_game_decisive(&self) -> (r: Option<Outcome>)
        requires
            self.wf(),
        ensures
            r == decisive_of(self@.board),
    {
        if self.has_line(Player::X) {
            Some(Outcome::Decisive(Player::X))
        } else if self.has_line(Player::O) {
            Some(Outcome::Decisive(Player::O))
        } else {
            None
        }
    }

    /// Every cell is claimed.
    fn board_is_full(&self) -> (r: bool)
        requires
            self.wf(),
        ensures
            r == board_full(self@.board),
    {
        let mut i: usize = 0;
        while i < 9
            invariant
                self.wf(),
                i <= 9,
                forall|j: int| 0 <= j < i ==> (#[trigger] self@.board[j]) is Occupied,
            decreases 9 - i,
        {
            match self.board[i].tile_occupancy {
                TileOccupancy::Occupied(_) => {},
                TileOccupancy::Empty => {
                    proof {
                        assert(!((self@.board[i as int]) is Occupied));
                    }
                    return false;
                },
            }
            i = i + 1;
        }
        true
    }

    /// The current board is a draw: full, with no completed triple. A win
    /// always takes precedence, so a full board with a triple is not drawn.
    pub fn is_game_drawn(&self) -> (r: bool)
        requires
            self.wf(),
        ensures
            r == (outcome_of(self@.board) == Some(Outcome::Draw)),
    {
        match self.is_game_decisive() {
            Some(_) => false,
            None => self.board_is_full(),
        }
    }

    /// Attempt a move at cell index `position` (0..8) by the active player.
    ///
    /// A finished game rejects every move with `GameAlreadyOver`; an index
    /// that names no cell is rejected with `InvalidPosition`; a claimed cell
    /// is rejected with `CellOccupied`. Every rejection leaves the game
    /// unchanged. An accepted move claims the cell for the active player,
    /// passes the turn to the opponent, re-evaluates the board (a win takes
    /// precedence over a draw), and returns the outcome now recorded, if any.
    pub fn attempt_move(&mut self, position: u8) -> (r: Result<Option<Outcome>, MoveError>)
        requires
            old(self).wf(),
        ensures
            final(self).wf(),
            (match move_rejection(old(self)@, position as int) {
                Some(e) => r == Err::<Option<Outcome>, MoveError>(e) && *final(self)
                    == *old(self),
                None => r == Ok::<Option<Outcome>, MoveError>(final(self)@.result) && final(self)@
                    =~= step(old(self)@, position as int),
            }),
    {
        if self.result.is_some() {
            return Err(MoveError::GameAlreadyOver);
        }
        if position >= 9 {
            return Err(MoveError::InvalidPosition);
        }
        match self.board[position as usize].tile_occupancy {
            TileOccupancy::Occupied(_) => {
                return Err(MoveError::CellOccupied);
            },
            TileOccupancy::Empty => {},
        }
        let mover = self.active_turn;
        self.set_tile(position, TileOccupancy::Occupied(mover));
        self.active_turn = match mover {
            Player::X => Player::O,
            Player::O => Player::X,
        };
        match self.is_game_decisive() {
            Some(o) => {
                self.result = Some(o);
            },
            None => {
                if self.board_is_full() {
                    self.result = Some(Outcome::Draw);
                }
            },
        }
        proof {
            assert(self@ =~= step(old(self)@, position as int));
        }
        Ok(self.result)
    }

    /// The one-character text depicting cell `i`.
    fn mark(&self, i: u8) -> (r: &'static str)
        requires
            self.wf(),
            i < 9,
        ensures
            r@ =~= seq![mark_char(self@.board[i as int])],
    {
        match self.board[i as usize].tile_occupancy {
            TileOccupancy::Occupied(Player::X) => {
                proof {
                    reveal_strlit("X");
                }
                "X"
            },
            TileOccupancy::Occupied(Player::O) => {
                proof {
                    reveal_strlit("O");
                }
                "O"
            },
            TileOccupancy::Empty => {
                proof {
                    reveal_strlit(" ");
                }
                " "
            },
        }
    }

    /// Append the rendered text of board row `row` to `out`.
    fn render_row(&self, row: u8, out: &mut String)
        requires
            self.wf(),
            row < 3,
        ensures
            final(out)@ =~= old(out)@ + row_view(self@.board, row as int),
    {
        proof {
            reveal_strlit("|");
            reveal_strlit(" \r\n");
        }
        out.append("|");
        out.append(self.mark(3 * row));
        out.append("|");
        out.append(self.mark(3 * row + 1));
        out.append("|");
        out.append(self.mark(3 * row + 2));
        out.append(" \r\n");
    }

    /// A human-readable depiction of the board: a leading line break, then
    /// the three rows, each cell preceded by a vertical bar, each row closed
    /// by a blank and a line break. A query; the game is not changed.
    pub fn render(&self) -> (r: String)
        requires
            self.wf(),
        ensures
            r@ =~= render_view(self@.board),
    {
        proof {
            reveal_strlit("\r\n");
        }
        let mut out = String::new();
        out.append("\r\n");
        self.render_row(0, &mut out);
        self.render_row(1, &mut out);
        self.render_row(2, &mut out);
        out
    }

    /// Overwrite the occupancy of the tile labelled `label`; a label that
    /// names no cell changes nothing. The active player and the recorded
    /// outcome are never touched.
    pub fn set_tile(&mut self, label: u8, occupancy: TileOccupancy)
        requires
            old(self).wf(),
        ensures
            final(self).wf(),
            label < 9 ==> final(self)@.board =~= old(self)@.board.update(label as int, occupancy),
            label >= 9 ==> *final(self) == *old(self),
            final(self)@.active == old(self)@.active,
            final(self)@.result == old(self)@.result,
    {
        if label < 9 {
            self.board[label as usize] = Tile { label, tile_occupancy: occupancy };
            proof {
                assert(self@.board =~= old(self)@.board.update(label as int, occupancy));
            }
        }
    }
}

} // verus!
