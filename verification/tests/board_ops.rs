use tic_tac_toe::board::Cell;
use tic_tac_toe::game::{Game, InvalidMove, Turn};

#[test]
fn new_game_is_blank() {
    let g = Game::new();
    assert_eq!(g.board.len(), 9);
    for k in 0..9 {
        assert_eq!(g.board[k], Cell::Empty);
    }
    assert_eq!(g.turn, Turn::Player);
    assert_eq!(g.player, Cell::Empty);
    assert_eq!(g.bot, Cell::Empty);
    assert!(!g.bot_maximizing);
}

#[test]
fn reset_yields_blank_game() {
    let mut g = Game::new_match(Cell::MarkA);
    g.set_cell(1, 1, Cell::MarkA);
    let fresh = g.reset();
    for k in 0..9 {
        assert_eq!(fresh.board[k], Cell::Empty);
    }
    assert_eq!(fresh.turn, Turn::Player);
    assert_eq!(fresh.player, Cell::Empty);
}

#[test]
fn new_match_assigns_marks_and_first_turn() {
    let g = Game::new_match(Cell::MarkA);
    assert_eq!(g.player, Cell::MarkA);
    assert_eq!(g.bot, Cell::MarkB);
    assert_eq!(g.turn, Turn::Player);
    assert!(!g.bot_maximizing);

    let h = Game::new_match(Cell::MarkB);
    assert_eq!(h.player, Cell::MarkB);
    assert_eq!(h.bot, Cell::MarkA);
    assert_eq!(h.turn, Turn::Bot);
    assert!(h.bot_maximizing);
}

#[test]
fn get_move_maps_positions_row_major() {
    let g = Game::new();
    assert_eq!(g.get_move(1), (0, 0));
    assert_eq!(g.get_move(3), (0, 2));
    assert_eq!(g.get_move(5), (1, 1));
    assert_eq!(g.get_move(7), (2, 0));
    assert_eq!(g.get_move(9), (2, 2));
}

#[test]
fn position_to_coord_rejects_out_of_range() {
    let g = Game::new();
    assert_eq!(g.position_to_coord(0), Err(InvalidMove::OutOfRange));
    assert_eq!(g.position_to_coord(10), Err(InvalidMove::OutOfRange));
    assert_eq!(g.position_to_coord(4), Ok((1, 0)));
}

#[test]
fn set_cell_and_cell_at_round_trip() {
    let mut g = Game::new_match(Cell::MarkB);
    g.set_cell(2, 1, Cell::MarkA);
    assert_eq!(g.cell_at(2, 1), Cell::MarkA);
    assert_eq!(g.cell_at(0, 0), Cell::Empty);
    g.set_cell(2, 1, Cell::Empty);
    assert_eq!(g.cell_at(2, 1), Cell::Empty);
}

#[test]
fn check_move_reports_occupancy() {
    let mut g = Game::new_match(Cell::MarkA);
    assert!(g.check_move(5));
    g.set_cell(1, 1, Cell::MarkB);
    assert!(!g.check_move(5));
    assert!(g.check_move(1));
}

#[test]
fn open_moves_and_is_full() {
    let mut g = Game::new_match(Cell::MarkA);
    assert!(g.open_moves());
    assert!(!g.is_full());
    for row in 0..3 {
        for col in 0..3 {
            g.set_cell(row, col, Cell::MarkA);
        }
    }
    assert!(!g.open_moves());
    assert!(g.is_full());
}

#[test]
fn next_turn_alternates() {
    let mut g = Game::new_match(Cell::MarkA);
    assert_eq!(g.turn, Turn::Player);
    g.next_turn();
    assert_eq!(g.turn, Turn::Bot);
    g.next_turn();
    assert_eq!(g.turn, Turn::Player);
}

#[test]
fn apply_human_move_out_of_range() {
    let mut g = Game::new_match(Cell::MarkA);
    assert_eq!(g.apply_human_move(0), Err(InvalidMove::OutOfRange));
    assert_eq!(g.apply_human_move(10), Err(InvalidMove::OutOfRange));
    assert_eq!(g.turn, Turn::Player);
    for k in 0..9 {
        assert_eq!(g.board[k], Cell::Empty);
    }
}

#[test]
fn apply_human_move_occupied() {
    let mut g = Game::new_match(Cell::MarkA);
    g.set_cell(0, 1, Cell::MarkB);
    assert_eq!(g.apply_human_move(2), Err(InvalidMove::Occupied));
    assert_eq!(g.turn, Turn::Player);
    assert_eq!(g.cell_at(0, 1), Cell::MarkB);
}

#[test]
fn apply_human_move_places_mark_and_advances_turn() {
    let mut g = Game::new_match(Cell::MarkA);
    assert_eq!(g.apply_human_move(6), Ok(()));
    assert_eq!(g.cell_at(1, 2), Cell::MarkA);
    assert_eq!(g.turn, Turn::Bot);
}
