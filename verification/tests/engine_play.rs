use tic_tac_toe::board::Cell;
use tic_tac_toe::game::{Game, Outcome, Turn};

fn board_from(rows: [[Cell; 3]; 3], human: Cell) -> Game {
    let mut g = Game::new_match(human);
    for row in 0..3 {
        for col in 0..3 {
            g.set_cell(row, col, rows[row][col]);
        }
    }
    g
}

const E: Cell = Cell::Empty;
const A: Cell = Cell::MarkA;
const B: Cell = Cell::MarkB;

#[test]
fn winning_row_is_completed_at_position_three() {
    // Automated side holds MarkA and is maximizing; completing the top row
    // at position 3 wins at once.
    let mut g = board_from([[A, A, E], [B, B, E], [E, E, E]], B);
    assert!(g.bot_maximizing);
    let pos = g.compute_bot_move();
    assert_eq!(pos, 3);
}

#[test]
fn winning_column_is_taken_by_minimizing_side() {
    // Automated side holds MarkB under the convention where it minimizes;
    // it still takes its own immediate win instead of blocking the
    // opponent's open row.
    let mut g = board_from([[E, B, B], [E, A, A], [E, E, E]], A);
    assert!(!g.bot_maximizing);
    let pos = g.compute_bot_move();
    assert_eq!(pos, 1);
}

#[test]
fn immediate_opponent_win_is_blocked() {
    // The opponent threatens the top row at position 3 and the automated
    // side has no win of its own: it must block.
    let mut g = board_from([[A, A, E], [E, B, E], [E, E, E]], A);
    let pos = g.compute_bot_move();
    assert_eq!(pos, 3);
}

#[test]
fn selected_cell_is_always_empty() {
    let boards = [
        [[A, A, E], [E, B, E], [E, E, E]],
        [[B, A, A], [A, B, B], [E, E, E]],
        [[A, E, E], [E, B, E], [E, E, A]],
    ];
    for rows in boards {
        let mut g = board_from(rows, A);
        let before = g.board.clone();
        let pos = g.compute_bot_move();
        assert!((1..=9).contains(&pos));
        assert_eq!(g.board, before);
        assert_eq!(g.board[(pos - 1) as usize], Cell::Empty);
    }
}

#[test]
fn tie_break_prefers_the_first_cell_row_major() {
    // On an empty board every optimal first move scores alike; the engine
    // must still pick position 1, the first cell in row-major order.
    let mut g = Game::new_match(Cell::MarkB);
    assert_eq!(g.turn, Turn::Bot);
    let pos = g.compute_bot_move();
    assert_eq!(pos, 1);
}

#[test]
fn get_bot_move_places_the_engine_choice() {
    let mut g = board_from([[A, A, E], [B, B, E], [E, E, E]], B);
    g.get_bot_move();
    assert_eq!(g.cell_at(0, 2), A);
    assert_eq!(g.current_outcome(), Outcome::Won(A));
}

#[test]
fn play_turn_applies_human_move_and_flips() {
    let mut g = Game::new_match(Cell::MarkA);
    let out = g.play_turn(5);
    assert_eq!(out, Outcome::Continuing);
    assert_eq!(g.cell_at(1, 1), A);
    assert_eq!(g.turn, Turn::Bot);
}

#[test]
fn play_turn_lets_the_bot_finish_the_game() {
    let mut g = board_from([[A, A, E], [B, B, E], [E, E, E]], B);
    assert_eq!(g.turn, Turn::Bot);
    let out = g.play_turn(1);
    assert_eq!(out, Outcome::Won(A));
    assert_eq!(g.turn, Turn::Bot);
}

fn mirror_duel(bot_first: bool) {
    // Both sides play engine moves: one game runs the engine for MarkA, a
    // mirror game runs it for MarkB, and each side's choice is replayed
    // into the other game as the human move.
    let mut for_a = Game::new_match(Cell::MarkB);
    let mut for_b = Game::new_match(Cell::MarkA);
    let mut a_to_move = bot_first;
    loop {
        if for_a.current_outcome() != Outcome::Continuing {
            break;
        }
        if a_to_move {
            let pos = for_a.compute_bot_move();
            let (row, col) = for_a.get_move(pos);
            for_a.set_cell(row, col, A);
            for_a.next_turn();
            assert_eq!(for_b.apply_human_move(pos), Ok(()));
        } else {
            let pos = for_b.compute_bot_move();
            let (row, col) = for_b.get_move(pos);
            for_b.set_cell(row, col, B);
            for_b.next_turn();
            assert_eq!(for_a.apply_human_move(pos), Ok(()));
        }
        a_to_move = !a_to_move;
    }
    assert_eq!(for_a.current_outcome(), Outcome::Draw);
    assert_eq!(for_b.current_outcome(), Outcome::Draw);
}

#[test]
fn optimal_against_optimal_is_a_draw_mark_a_first() {
    mirror_duel(true);
}

#[test]
fn optimal_against_optimal_is_a_draw_mark_b_first() {
    mirror_duel(false);
}
