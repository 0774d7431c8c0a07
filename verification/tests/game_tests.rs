use tic_tac_toe::game::{Game, Tile};
use tic_tac_toe::model::{MoveError, Outcome, Player, TileOccupancy};

#[test]
fn fresh_game_state() {
    let g = Game::new();
    assert_eq!(g.outcome(), None);
    assert_eq!(g.active_player(), Player::O);
    for i in 0..9u8 {
        assert_eq!(
            g.tile(i),
            Some(Tile { label: i, tile_occupancy: TileOccupancy::Empty })
        );
    }
    assert_eq!(g.tile(9), None);
}

#[test]
fn turn_alternation() {
    let mut g = Game::new();
    assert_eq!(g.active_player(), Player::O);
    assert_eq!(g.attempt_move(4), Ok(None));
    assert_eq!(g.active_player(), Player::X);
    assert_eq!(g.attempt_move(0), Ok(None));
    assert_eq!(g.active_player(), Player::O);
}

#[test]
fn column_win_is_decisive() {
    // Positions 1,2,4,5,7 (1-based) are cells 0,1,3,4,6: the first mover, O,
    // takes cells 0, 3 and 6 and completes the left column.
    let mut g = Game::new();
    assert_eq!(g.attempt_move(0), Ok(None));
    assert_eq!(g.attempt_move(1), Ok(None));
    assert_eq!(g.attempt_move(3), Ok(None));
    assert_eq!(g.attempt_move(4), Ok(None));
    assert_eq!(g.attempt_move(6), Ok(Some(Outcome::Decisive(Player::O))));
    assert_eq!(g.outcome(), Some(Outcome::Decisive(Player::O)));
    assert_eq!(g.is_game_decisive(), Some(Outcome::Decisive(Player::O)));
    assert!(!g.is_game_drawn());
}

#[test]
fn full_board_without_line_is_a_draw() {
    // O takes 0,1,5,6,8 and X takes 2,3,4,7: no triple is ever completed.
    let mut g = Game::new();
    for pos in [0u8, 2, 1, 3, 5, 4, 6, 7] {
        assert_eq!(g.attempt_move(pos), Ok(None));
    }
    assert_eq!(g.attempt_move(8), Ok(Some(Outcome::Draw)));
    assert_eq!(g.outcome(), Some(Outcome::Draw));
    assert!(g.is_game_drawn());
    assert_eq!(g.is_game_decisive(), None);
}

#[test]
fn out_of_range_position_is_rejected() {
    // Position 10 (1-based) is cell index 9: not on the board.
    let mut g = Game::new();
    assert_eq!(g.attempt_move(9), Err(MoveError::InvalidPosition));
    assert_eq!(g.active_player(), Player::O);
    assert_eq!(g.outcome(), None);
    for i in 0..9u8 {
        assert_eq!(
            g.tile(i),
            Some(Tile { label: i, tile_occupancy: TileOccupancy::Empty })
        );
    }
}

#[test]
fn occupied_cell_is_rejected() {
    let mut g = Game::new();
    assert_eq!(g.attempt_move(0), Ok(None));
    assert_eq!(g.attempt_move(0), Err(MoveError::CellOccupied));
    // The second call changed nothing: cell 0 keeps its first owner, the
    // turn stays with X, and there is still no outcome.
    assert_eq!(
        g.tile(0),
        Some(Tile { label: 0, tile_occupancy: TileOccupancy::Occupied(Player::O) })
    );
    assert_eq!(g.active_player(), Player::X);
    assert_eq!(g.outcome(), None);
}

#[test]
fn finished_game_rejects_every_move() {
    let mut g = Game::new();
    for pos in [0u8, 1, 3, 4, 6] {
        let _ = g.attempt_move(pos);
    }
    assert_eq!(g.outcome(), Some(Outcome::Decisive(Player::O)));
    let active_before = g.active_player();
    assert_eq!(g.attempt_move(5), Err(MoveError::GameAlreadyOver));
    assert_eq!(g.attempt_move(0), Err(MoveError::GameAlreadyOver));
    assert_eq!(g.outcome(), Some(Outcome::Decisive(Player::O)));
    assert_eq!(g.active_player(), active_before);
    assert_eq!(
        g.tile(5),
        Some(Tile { label: 5, tile_occupancy: TileOccupancy::Empty })
    );
}

#[test]
fn winning_last_move_on_full_board_beats_draw() {
    // O takes 0,1,3,4,8 and X takes 2,5,6,7; O's last move at cell 8 both
    // fills the board and completes the 0-4-8 diagonal: a win, not a draw.
    let mut g = Game::new();
    for pos in [0u8, 2, 1, 5, 3, 6, 4, 7] {
        assert_eq!(g.attempt_move(pos), Ok(None));
    }
    assert_eq!(g.attempt_move(8), Ok(Some(Outcome::Decisive(Player::O))));
    assert_eq!(g.outcome(), Some(Outcome::Decisive(Player::O)));
    assert!(!g.is_game_drawn());
}

#[test]
fn set_tile_overwrites_one_cell() {
    let mut g = Game::new();
    g.set_tile(4, TileOccupancy::Occupied(Player::X));
    assert_eq!(
        g.tile(4),
        Some(Tile { label: 4, tile_occupancy: TileOccupancy::Occupied(Player::X) })
    );
    assert_eq!(
        g.tile(3),
        Some(Tile { label: 3, tile_occupancy: TileOccupancy::Empty })
    );
    assert_eq!(g.active_player(), Player::O);
    assert_eq!(g.outcome(), None);
}

#[test]
fn set_tile_out_of_range_changes_nothing() {
    let mut g = Game::new();
    g.set_tile(9, TileOccupancy::Occupied(Player::X));
    for i in 0..9u8 {
        assert_eq!(
            g.tile(i),
            Some(Tile { label: i, tile_occupancy: TileOccupancy::Empty })
        );
    }
}

#[test]
fn decisive_query_reads_the_board() {
    let mut g = Game::new();
    assert_eq!(g.is_game_decisive(), None);
    g.set_tile(0, TileOccupancy::Occupied(Player::X));
    g.set_tile(1, TileOccupancy::Occupied(Player::X));
    assert_eq!(g.is_game_decisive(), None);
    g.set_tile(2, TileOccupancy::Occupied(Player::X));
    assert_eq!(g.is_game_decisive(), Some(Outcome::Decisive(Player::X)));
    assert!(!g.is_game_drawn());
}

#[test]
fn drawn_query_needs_a_full_board() {
    let mut g = Game::new();
    assert!(!g.is_game_drawn());
    let owners = [
        Player::O,
        Player::O,
        Player::X,
        Player::X,
        Player::X,
        Player::O,
        Player::O,
        Player::X,
        Player::O,
    ];
    for i in 0..8u8 {
        g.set_tile(i, TileOccupancy::Occupied(owners[i as usize]));
        assert!(!g.is_game_drawn());
    }
    g.set_tile(8, TileOccupancy::Occupied(owners[8]));
    assert!(g.is_game_drawn());
    assert_eq!(g.is_game_decisive(), None);
}

#[test]
fn player_labels() {
    assert_eq!(Player::X.as_char(), 'X');
    assert_eq!(Player::O.as_char(), 'O');
}

#[test]
fn render_fresh_board() {
    let g = Game::new();
    assert_eq!(g.render(), "\r\n| | |  \r\n| | |  \r\n| | |  \r\n");
}

#[test]
fn render_shows_owners_in_place() {
    let mut g = Game::new();
    assert_eq!(g.attempt_move(0), Ok(None)); // O
    assert_eq!(g.attempt_move(4), Ok(None)); // X
    assert_eq!(g.attempt_move(8), Ok(None)); // O
    assert_eq!(g.render(), "\r\n|O| |  \r\n| |X|  \r\n| | |O \r\n");
}
