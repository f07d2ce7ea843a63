//! The game state: the board, the two sides' marks, the active turn, and the
//! sign convention captured at match start; plus the board operations and the
//! win/draw evaluator.

use vstd::prelude::*;

use crate::board::{board_full, cell_index, spec_winner, Cell};
use crate::engine::{spec_best_cell, terminal_score};

verus! {

/// Whose turn is active.
#[derive(Clone, Copy, PartialEq, Eq, Structural, Debug)]
pub enum Turn {
    Player,
    Bot,
}

/// Why a requested move was rejected.
#[derive(Clone, Copy, PartialEq, Eq, Structural, Debug)]
pub enum InvalidMove {
    /// The position lies outside 1..=9.
    OutOfRange,
    /// The addressed cell is already occupied.
    Occupied,
}

/// The terminal check's verdict for a board.
#[derive(Clone, Copy, PartialEq, Eq, Structural, Debug)]
pub enum Outcome {
    Continuing,
    Won(Cell),
    Draw,
}

/// The outcome of a board: the first completed line's mark wins; a full board
/// with no line is a draw; otherwise the game continues.
pub open spec fn spec_outcome(b: Seq<Cell>) -> Outcome {
    match spec_winner(b) {
        Some(m) => Outcome::Won(m),
        None => if board_full(b) {
            Outcome::Draw
        } else {
            Outcome::Continuing
        },
    }
}

/// The other turn.
pub open spec fn flipped(t: Turn) -> Turn {
    match t {
        Turn::Player => Turn::Bot,
        Turn::Bot => Turn::Player,
    }
}

/// One match of the game.
pub struct Game {
    /// The nine cells, row-major.
    pub board: Vec<Cell>,
    /// Whose turn is active.
    pub turn: Turn,
    /// The human side's mark.
    pub player: Cell,
    /// The automated side's mark.
    pub bot: Cell,
    /// Whether the automated side is the maximizing side in the scoring
    /// convention, fixed at match start.
    pub bot_maximizing: bool,
}

impl Game {
    /// A configured match: nine cells, and the two sides holding the two
    /// distinct marks.
    pub open spec fn wf(self) -> bool {
        &&& self.board@.len() == 9
        &&& (self.player == Cell::MarkA || self.player == Cell::MarkB)
        &&& (self.bot == Cell::MarkA || self.bot == Cell::MarkB)
        &&& self.player != self.bot
    }

    /// The two sides' marks and the sign convention agree between `self`
    /// and `other`.
    pub open spec fn same_setup(self, other: Game) -> bool {
        &&& self.player == other.player
        &&& self.bot == other.bot
        &&& self.bot_maximizing == other.bot_maximizing
    }

    /// A fresh, unconfigured game: an empty board, the human side to move,
    /// and no marks assigned yet.
    pub fn new() -> (g: Game)
        ensures
            g.board@.len() == 9,
            forall|i: int| 0 <= i < 9 ==> g.board@[i] is Empty,
            g.turn is Player,
            g.player is Empty,
            g.bot is Empty,
            g.bot_maximizing == false,
    {
        Game {
            board: vec![Cell::Empty; 9],
            turn: Turn::Player,
            player: Cell::Empty,
            bot: Cell::Empty,
            bot_maximizing: false,
        }
    }

    /// A configured match for a chosen human mark: empty board, the bot
    /// holding the other mark, the first turn belonging to whichever side
    /// holds `MarkA`, and the sign convention fixed from the assignment.
    pub fn new_match(human: Cell) -> (g: Game)
        requires
            human is MarkA || human is MarkB,
        ensures
            g.wf(),
            forall|i: int| 0 <= i < 9 ==> g.board@[i] is Empty,
            g.player == human,
            g.bot == (if human is MarkA { Cell::MarkB } else { Cell::MarkA }),
            g.bot_maximizing == (human is MarkB),
            g.turn == (if human is MarkA { Turn::Player } else { Turn::Bot }),
    {
        let bot = if matches!(human, Cell::MarkA) { Cell::MarkB } else { Cell::MarkA };
        Game {
            board: vec![Cell::Empty; 9],
            turn: if matches!(human, Cell::MarkA) { Turn::Player } else { Turn::Bot },
            player: human,
            bot,
            bot_maximizing: matches!(human, Cell::MarkB),
        }
    }

    /// A fresh game for a new match, as `new` builds it.
    pub fn reset(&self) -> (g: Game)
        ensures
            g.board@.len() == 9,
            forall|i: int| 0 <= i < 9 ==> g.board@[i] is Empty,
            g.turn is Player,
            g.player is Empty,
            g.bot is Empty,
            g.bot_maximizing == false,
    {
        Game::new()
    }

    /// The row and column addressed by a 1-based position, row-major.
    pub fn get_move(&self, board_move: u32) -> (rc: (usize, usize))
        requires
            1 <= board_move <= 9,
        ensures
            rc.0 as int == (board_move - 1) as int / 3,
            rc.1 as int == (board_move - 1) as int % 3,
            rc.0 < 3,
            rc.1 < 3,
            cell_index(rc.0 as int, rc.1 as int) == board_move - 1,
    {
        let row = ((board_move - 1) / 3) as usize;
        let col = ((board_move - 1) % 3) as usize;
        (row, col)
    }

    /// The row and column for a position, or `OutOfRange` when the position
    /// lies outside 1..=9.
    pub fn position_to_coord(&self, position: u32) -> (r: Result<(usize, usize), InvalidMove>)
        ensures
            1 <= position <= 9 ==> (r matches Ok(rc) && rc.0 as int == (position - 1) as int / 3
                && rc.1 as int == (position - 1) as int % 3),
            !(1 <= position <= 9) ==> (r matches Err(e) && e == InvalidMove::OutOfRange),
    {
        if position < 1 || position > 9 {
            Err(InvalidMove::OutOfRange)
        } else {
            Ok(self.get_move(position))
        }
    }

    /// The cell at `(row, col)`.
    pub fn cell_at(&self, row: usize, col: usize) -> (c: Cell)
        requires
            self.board@.len() == 9,
            row < 3,
            col < 3,
        ensures
            c == self.board@[cell_index(row as int, col as int)],
    {
        self.board[row * 3 + col]
    }

    /// Overwrites the cell at `(row, col)`. Legality of the move is the
    /// caller's business: the search engine relies on overwriting to place
    /// and to undo trial marks.
    pub fn set_cell(&mut self, row: usize, col: usize, mark: Cell)
        requires
            old(self).board@.len() == 9,
            row < 3,
            col < 3,
        ensures
            final(self).board@ == old(self).board@.update(
                cell_index(row as int, col as int),
                mark,
            ),
            final(self).turn == old(self).turn,
            final(self).same_setup(*old(self)),
    {
        self.board[row * 3 + col] = mark;
    }

    /// Whether the cell addressed by a 1-based position is still empty.
    pub fn check_move(&self, player_move: u32) -> (r: bool)
        requires
            self.board@.len() == 9,
            1 <= player_move <= 9,
        ensures
            r == (self.board@[player_move as int - 1] is Empty),
    {
        let (row, col) = self.get_move(player_move);
        match self.board[row * 3 + col] {
            Cell::Empty => true,
            _ => false,
        }
    }

    /// Whether some cell is still empty.
    #[verifier::loop_isolation(false)]
    pub fn open_moves(&self) -> (r: bool)
        requires
            self.board@.len() == 9,
        ensures
            r == !board_full(self.board@),
    {
        let mut k: usize = 0;
        while k < 9
            invariant
                0 <= k <= 9,
                forall|j: int| 0 <= j < k ==> !(self.board@[j] is Empty),
            decreases 9 - k,
        {
            if self.board[k] == Cell::Empty {
                return true;
            }
            k = k + 1;
        }
        false
    }

    /// Whether every cell is occupied.
    pub fn is_full(&self) -> (r: bool)
        requires
            self.board@.len() == 9,
        ensures
            r == board_full(self.board@),
    {
        !self.open_moves()
    }

    /// Whether some row, column or diagonal is completed.
    pub fn check_win(&self) -> (r: bool)
        requires
            self.board@.len() == 9,
        ensures
            r == (spec_winner(self.board@) is Some),
    {
        let b = &self.board;
        let row0 = b[0] != Cell::Empty && b[0] == b[1] && b[1] == b[2];
        let row1 = b[3] != Cell::Empty && b[3] == b[4] && b[4] == b[5];
        let row2 = b[6] != Cell::Empty && b[6] == b[7] && b[7] == b[8];
        let col0 = b[0] != Cell::Empty && b[0] == b[3] && b[3] == b[6];
        let col1 = b[1] != Cell::Empty && b[1] == b[4] && b[4] == b[7];
        let col2 = b[2] != Cell::Empty && b[2] == b[5] && b[5] == b[8];
        let diag = b[0] != Cell::Empty && b[0] == b[4] && b[4] == b[8];
        let anti = b[2] != Cell::Empty && b[2] == b[4] && b[4] == b[6];
        row0 || row1 || row2 || col0 || col1 || col2 || diag || anti
    }

    /// The terminal check: the first completed line's mark wins; a full board
    /// with no line is a draw; otherwise the game continues. A pure function
    /// of the board, so repeated calls agree.
    pub fn current_outcome(&self) -> (r: Outcome)
        requires
            self.board@.len() == 9,
        ensures
            r == spec_outcome(self.board@),
            r matches Outcome::Won(m) ==> spec_winner(self.board@) == Some(m),
    {
        let b = &self.board;
        if b[0] != Cell::Empty && b[0] == b[1] && b[1] == b[2] {
            Outcome::Won(b[0])
        } else if b[3] != Cell::Empty && b[3] == b[4] && b[4] == b[5] {
            Outcome::Won(b[3])
        } else if b[6] != Cell::Empty && b[6] == b[7] && b[7] == b[8] {
            Outcome::Won(b[6])
        } else if b[0] != Cell::Empty && b[0] == b[3] && b[3] == b[6] {
            Outcome::Won(b[0])
        } else if b[1] != Cell::Empty && b[1] == b[4] && b[4] == b[7] {
            Outcome::Won(b[1])
        } else if b[2] != Cell::Empty && b[2] == b[5] && b[5] == b[8] {
            Outcome::Won(b[2])
        } else if b[0] != Cell::Empty && b[0] == b[4] && b[4] == b[8] {
            Outcome::Won(b[0])
        } else if b[2] != Cell::Empty && b[2] == b[4] && b[4] == b[6] {
            Outcome::Won(b[2])
        } else if self.is_full() {
            Outcome::Draw
        } else {
            Outcome::Continuing
        }
    }

    /// The score the search engine reads at a leaf: the winning side's score
    /// under the match's sign convention, zero for a full drawn board, and
    /// the sentinel `-1` while the game is still open.
    pub fn evaluate(&self) -> (score: i32)
        requires
            self.board@.len() == 9,
        ensures
            score as int == terminal_score(self.board@, self.bot, self.bot_maximizing),
    {
        let b = &self.board;
        if b[0] != Cell::Empty && b[0] == b[1] && b[1] == b[2] {
            self.mark_score(b[0])
        } else if b[3] != Cell::Empty && b[3] == b[4] && b[4] == b[5] {
            self.mark_score(b[3])
        } else if b[6] != Cell::Empty && b[6] == b[7] && b[7] == b[8] {
            self.mark_score(b[6])
        } else if b[0] != Cell::Empty && b[0] == b[3] && b[3] == b[6] {
            self.mark_score(b[0])
        } else if b[1] != Cell::Empty && b[1] == b[4] && b[4] == b[7] {
            self.mark_score(b[1])
        } else if b[2] != Cell::Empty && b[2] == b[5] && b[5] == b[8] {
            self.mark_score(b[2])
        } else if b[0] != Cell::Empty && b[0] == b[4] && b[4] == b[8] {
            self.mark_score(b[0])
        } else if b[2] != Cell::Empty && b[2] == b[4] && b[4] == b[6] {
            self.mark_score(b[2])
        } else if self.is_full() {
            0
        } else {
            -1
        }
    }

    /// The winning mark's score under the match's sign convention: `10` when
    /// the line belongs to whichever side is maximizing, `-10` otherwise.
    fn mark_score(&self, m: Cell) -> (score: i32)
        ensures
            score as int == (if (m == self.bot) == self.bot_maximizing { 10int } else { -10int }),
    {
        if (m == self.bot) == self.bot_maximizing {
            10
        } else {
            -10
        }
    }

    /// Hands the turn to the other side.
    pub fn next_turn(&mut self)
        ensures
            final(self).turn == flipped(old(self).turn),
            final(self).board@ == old(self).board@,
            final(self).same_setup(*old(self)),
    {
        self.turn = match self.turn {
            Turn::Player => Turn::Bot,
            Turn::Bot => Turn::Player,
        };
    }

    /// Applies the human side's move: rejects a position outside 1..=9 as
    /// `OutOfRange` and an occupied cell as `Occupied`, leaving the state
    /// untouched; on success places the human mark and advances the turn.
    pub fn apply_human_move(&mut self, position: u32) -> (r: Result<(), InvalidMove>)
        requires
            old(self).wf(),
        ensures
            final(self).wf(),
            final(self).same_setup(*old(self)),
            !(1 <= position <= 9) ==> (r matches Err(e) && e == InvalidMove::OutOfRange
                && final(self).board@ == old(self).board@ && final(self).turn == old(self).turn),
            1 <= position <= 9 && !(old(self).board@[position as int - 1] is Empty) ==> (
            r matches Err(e) && e == InvalidMove::Occupied && final(self).board@ == old(
                self,
            ).board@ && final(self).turn == old(self).turn),
            1 <= position <= 9 && old(self).board@[position as int - 1] is Empty ==> (
            r matches Ok(u) && u == () && final(self).board@ == old(self).board@.update(
                position as int - 1,
                old(self).player,
            ) && final(self).turn == flipped(old(self).turn)),
    {
        if position < 1 || position > 9 {
            return Err(InvalidMove::OutOfRange);
        }
        if !self.check_move(position) {
            return Err(InvalidMove::Occupied);
        }
        let (row, col) = self.get_move(position);
        self.board[row * 3 + col] = self.player;
        self.next_turn();
        Ok(())
    }

    /// The cell the active side plays: the pre-validated human position on
    /// the human side's turn, the engine's choice on the automated side's.
    pub open spec fn played_cell(self, human_position: u32) -> int {
        match self.turn {
            Turn::Player => human_position as int - 1,
            Turn::Bot => spec_best_cell(self.board@, self.bot, self.player, self.bot_maximizing),
        }
    }

    /// The mark of the side whose turn is active.
    pub open spec fn active_mark(self) -> Cell {
        match self.turn {
            Turn::Player => self.player,
            Turn::Bot => self.bot,
        }
    }

    /// One step of the turn state machine: the active side's move is placed
    /// (the human side's arrives pre-validated, the automated side's comes
    /// from the search engine), the board's outcome is reported, and the
    /// turn flips exactly when the game continues.
    pub fn play_turn(&mut self, human_position: u32) -> (out: Outcome)
        requires
            old(self).wf(),
            spec_outcome(old(self).board@) is Continuing,
            old(self).turn is Player ==> 1 <= human_position <= 9 && old(self).board@[
                human_position as int - 1] is Empty,
        ensures
            final(self).wf(),
            final(self).same_setup(*old(self)),
            final(self).board@ == old(self).board@.update(
                old(self).played_cell(human_position),
                old(self).active_mark(),
            ),
            out == spec_outcome(final(self).board@),
            out is Continuing ==> final(self).turn == flipped(old(self).turn),
            !(out is Continuing) ==> final(self).turn == old(self).turn,
    {
        match self.turn {
            Turn::Player => {
                let (row, col) = self.get_move(human_position);
                self.board[row * 3 + col] = self.player;
            },
            Turn::Bot => {
                self.get_bot_move();
            },
        }
        let out = self.current_outcome();
        if matches!(out, Outcome::Continuing) {
            self.next_turn();
        }
        out
    }
}

} // verus!
