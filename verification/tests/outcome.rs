use tic_tac_toe::board::Cell;
use tic_tac_toe::game::{Game, Outcome};

fn board_from(rows: [[Cell; 3]; 3], human: Cell) -> Game {
    let mut g = Game::new_match(human);
    for row in 0..3 {
        for col in 0..3 {
            g.set_cell(row, col, rows[row][col]);
        }
    }
    g
}

const E: Cell = Cell::Empty;
const A: Cell = Cell::MarkA;
const B: Cell = Cell::MarkB;

#[test]
fn empty_board_is_continuing() {
    let g = Game::new_match(Cell::MarkA);
    assert_eq!(g.current_outcome(), Outcome::Continuing);
    assert!(!g.check_win());
}

#[test]
fn row_win_is_reported() {
    let g = board_from([[A, A, A], [B, B, E], [E, E, E]], A);
    assert_eq!(g.current_outcome(), Outcome::Won(A));
    assert!(g.check_win());
}

#[test]
fn column_win_is_reported() {
    let g = board_from([[B, A, E], [B, A, E], [E, A, B]], A);
    assert_eq!(g.current_outcome(), Outcome::Won(A));
}

#[test]
fn diagonal_win_is_reported() {
    let g = board_from([[B, A, A], [E, B, E], [A, E, B]], A);
    assert_eq!(g.current_outcome(), Outcome::Won(B));
    let h = board_from([[A, E, B], [E, B, A], [B, A, E]], A);
    assert_eq!(h.current_outcome(), Outcome::Won(B));
}

#[test]
fn full_board_without_line_is_draw() {
    let g = board_from([[A, B, A], [A, B, B], [B, A, A]], A);
    assert_eq!(g.current_outcome(), Outcome::Draw);
    assert!(!g.check_win());
}

#[test]
fn outcome_is_idempotent_and_never_won_without_line() {
    let boards = [
        [[E, E, E], [E, E, E], [E, E, E]],
        [[A, B, A], [A, B, B], [B, A, A]],
        [[A, A, E], [B, B, E], [E, E, E]],
        [[A, A, A], [B, B, E], [E, E, E]],
    ];
    for rows in boards {
        let g = board_from(rows, A);
        let first = g.current_outcome();
        let second = g.current_outcome();
        assert_eq!(first, second);
        if !g.check_win() {
            assert!(!matches!(first, Outcome::Won(_)));
        }
    }
}

#[test]
fn evaluate_scores_follow_the_sign_convention() {
    // Automated side holds MarkA and is maximizing: its line scores 10.
    let g = board_from([[A, A, A], [B, B, E], [E, E, E]], B);
    assert!(g.bot_maximizing);
    assert_eq!(g.evaluate(), 10);

    // Opponent's line under the same convention scores -10.
    let h = board_from([[B, B, B], [A, A, E], [E, E, E]], B);
    assert_eq!(h.evaluate(), -10);

    // Automated side holds MarkB and is not maximizing: its line scores -10.
    let i = board_from([[B, B, B], [A, A, E], [E, E, E]], A);
    assert!(!i.bot_maximizing);
    assert_eq!(i.evaluate(), -10);
    let j = board_from([[A, A, A], [B, B, E], [E, E, E]], A);
    assert_eq!(j.evaluate(), 10);

    // A full drawn board scores 0; an open board scores the sentinel -1.
    let k = board_from([[A, B, A], [A, B, B], [B, A, A]], A);
    assert_eq!(k.evaluate(), 0);
    let l = board_from([[A, A, E], [B, B, E], [E, E, E]], A);
    assert_eq!(l.evaluate(), -1);
}
