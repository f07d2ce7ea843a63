//! The minimax search engine: a mathematical model of the exhaustive search,
//! the executable search with its mutate-then-restore discipline, and the
//! choice of the automated side's move.

use vstd::prelude::*;

use crate::board::{
    board_full, empty_count, lemma_empty_count_le_len, lemma_empty_count_update,
    lemma_not_full_has_empty, spec_winner, Cell,
};
use crate::game::Game;

verus! {

/// The score the search reads at a leaf, under the match's sign convention:
/// `10` for a line of the maximizing side, `-10` for a line of the minimizing
/// side, `0` for a full board without a line, and the sentinel `-1` while the
/// board is neither won nor full.
pub open spec fn terminal_score(b: Seq<Cell>, bot: Cell, bot_maximizing: bool) -> int {
    match spec_winner(b) {
        Some(m) => if (m == bot) == bot_maximizing {
            10
        } else {
            -10
        },
        None => if board_full(b) {
            0
        } else {
            -1
        },
    }
}

/// The terminal score of a board the automated side has won, under the
/// match's sign convention.
pub open spec fn win_score(bot_maximizing: bool) -> int {
    if bot_maximizing {
        10
    } else {
        -10
    }
}

/// The terminal score of a board the opponent has won, under the match's
/// sign convention.
pub open spec fn lose_score(bot_maximizing: bool) -> int {
    if bot_maximizing {
        -10
    } else {
        10
    }
}

/// The mark placed at a ply: the maximizing side's mark on a maximizing ply,
/// the other side's mark otherwise. Which physical mark that is follows from
/// the sign convention fixed at match start, not from the `maximizing` flag
/// alone.
pub open spec fn ply_mark(maximizing: bool, bot: Cell, player: Cell, bot_maximizing: bool) -> Cell {
    if maximizing == bot_maximizing {
        bot
    } else {
        player
    }
}

/// The extreme starting value of a fold over candidate moves: below every
/// reachable score when maximizing, above every reachable score when
/// minimizing, so the first candidate always registers.
pub open spec fn search_sentinel(maximizing: bool) -> int {
    if maximizing {
        -10000
    } else {
        10000
    }
}

/// The minimax value of a board for the side whose ply it is: the terminal
/// score at a leaf, and otherwise the best child value over every empty
/// cell in row-major order.
pub open spec fn spec_minimax(
    b: Seq<Cell>,
    maximizing: bool,
    bot: Cell,
    player: Cell,
    bot_maximizing: bool,
) -> int
    decreases empty_count(b), 1int, 0int,
{
    let s = terminal_score(b, bot, bot_maximizing);
    if s != -1 {
        s
    } else {
        children_best(b, maximizing, bot, player, bot_maximizing, 9)
    }
}

/// The best child value over the empty cells among the first `k` cells:
/// the maximum of the children when maximizing, the minimum when minimizing,
/// starting from the extreme sentinel.
pub open spec fn children_best(
    b: Seq<Cell>,
    maximizing: bool,
    bot: Cell,
    player: Cell,
    bot_maximizing: bool,
    k: int,
) -> int
    decreases empty_count(b), 0int, k,
    via children_best_decreases
{
    if k <= 0 {
        search_sentinel(maximizing)
    } else {
        let prev = children_best(b, maximizing, bot, player, bot_maximizing, k - 1);
        let m = ply_mark(maximizing, bot, player, bot_maximizing);
        if 0 <= k - 1 < b.len() && b[k - 1] is Empty && !(m is Empty) {
            let child = spec_minimax(
                b.update(k - 1, m),
                !maximizing,
                bot,
                player,
                bot_maximizing,
            );
            if maximizing {
                if child > prev {
                    child
                } else {
                    prev
                }
            } else {
                if child < prev {
                    child
                } else {
                    prev
                }
            }
        } else {
            prev
        }
    }
}

#[via_fn]
proof fn children_best_decreases(
    b: Seq<Cell>,
    maximizing: bool,
    bot: Cell,
    player: Cell,
    bot_maximizing: bool,
    k: int,
) {
    if k > 0 {
        let m = ply_mark(maximizing, bot, player, bot_maximizing);
        if 0 <= k - 1 < b.len() && b[k - 1] is Empty && !(m is Empty) {
            lemma_empty_count_update(b, k - 1, m);
        }
    }
}

/// The minimax value of the position after the automated side tries the
/// empty cell `j`.
pub open spec fn child_val(b: Seq<Cell>, bot: Cell, player: Cell, bot_maximizing: bool, j: int) -> int {
    spec_minimax(b.update(j, bot), !bot_maximizing, bot, player, bot_maximizing)
}

/// Whether score `x` is strictly better than `y` from the automated side's
/// point of view under the match's sign convention.
pub open spec fn bot_prefers(bot_maximizing: bool, x: int, y: int) -> bool {
    if bot_maximizing {
        x > y
    } else {
        x < y
    }
}

/// Cell `k` is the engine's choice on board `b`: empty, no empty cell has a
/// strictly better child value, and `k` strictly beats every earlier empty
/// cell, so `k` is the first cell in row-major order attaining the optimum.
pub open spec fn is_best_choice(
    b: Seq<Cell>,
    bot: Cell,
    player: Cell,
    bot_maximizing: bool,
    k: int,
) -> bool {
    &&& 0 <= k < 9
    &&& b[k] is Empty
    &&& forall|j: int|
        0 <= j < 9 && b[j] is Empty ==> !bot_prefers(
            bot_maximizing,
            #[trigger] child_val(b, bot, player, bot_maximizing, j),
            child_val(b, bot, player, bot_maximizing, k),
        )
    &&& forall|j: int|
        0 <= j < k && b[j] is Empty ==> bot_prefers(
            bot_maximizing,
            child_val(b, bot, player, bot_maximizing, k),
            #[trigger] child_val(b, bot, player, bot_maximizing, j),
        )
}

/// The cell the engine chooses on board `b`.
pub open spec fn spec_best_cell(b: Seq<Cell>, bot: Cell, player: Cell, bot_maximizing: bool) -> int {
    choose|k: int| is_best_choice(b, bot, player, bot_maximizing, k)
}

/// At most one cell satisfies `is_best_choice`: a strict winner of the
/// tie-break cannot exist twice.
pub proof fn lemma_best_choice_unique(
    b: Seq<Cell>,
    bot: Cell,
    player: Cell,
    bot_maximizing: bool,
    k1: int,
    k2: int,
)
    requires
        is_best_choice(b, bot, player, bot_maximizing, k1),
        is_best_choice(b, bot, player, bot_maximizing, k2),
    ensures
        k1 == k2,
{
    if k1 < k2 {
        assert(bot_prefers(
            bot_maximizing,
            child_val(b, bot, player, bot_maximizing, k2),
            child_val(b, bot, player, bot_maximizing, k1),
        ));
    }
    if k2 < k1 {
        assert(bot_prefers(
            bot_maximizing,
            child_val(b, bot, player, bot_maximizing, k1),
            child_val(b, bot, player, bot_maximizing, k2),
        ));
    }
}

/// A fold over a prefix without empty cells is still at the sentinel.
pub proof fn lemma_children_best_sentinel(
    b: Seq<Cell>,
    maximizing: bool,
    bot: Cell,
    player: Cell,
    bot_maximizing: bool,
    k: int,
)
    requires
        b.len() == 9,
        0 <= k <= 9,
        forall|j: int| 0 <= j < k ==> !(b[j] is Empty),
    ensures
        children_best(b, maximizing, bot, player, bot_maximizing, k) == search_sentinel(maximizing),
    decreases k,
{
    if k > 0 {
        lemma_children_best_sentinel(b, maximizing, bot, player, bot_maximizing, k - 1);
    }
}

/// Every minimax value lies between the two terminal win scores.
pub proof fn lemma_minimax_bounds(
    b: Seq<Cell>,
    maximizing: bool,
    bot: Cell,
    player: Cell,
    bot_maximizing: bool,
)
    requires
        b.len() == 9,
        !(bot is Empty),
        !(player is Empty),
    ensures
        -10 <= spec_minimax(b, maximizing, bot, player, bot_maximizing) <= 10,
    decreases empty_count(b), 1int, 0int,
{
    let s = terminal_score(b, bot, bot_maximizing);
    if s == -1 {
        lemma_not_full_has_empty(b);
        lemma_children_best_bounds(b, maximizing, bot, player, bot_maximizing, 9);
    }
}

/// A fold that has passed at least one empty cell lies between the two
/// terminal win scores.
pub proof fn lemma_children_best_bounds(
    b: Seq<Cell>,
    maximizing: bool,
    bot: Cell,
    player: Cell,
    bot_maximizing: bool,
    k: int,
)
    requires
        b.len() == 9,
        !(bot is Empty),
        !(player is Empty),
        0 < k <= 9,
        exists|j: int| 0 <= j < k && b[j] is Empty,
    ensures
        -10 <= children_best(b, maximizing, bot, player, bot_maximizing, k) <= 10,
    decreases empty_count(b), 0int, k,
{
    let m = ply_mark(maximizing, bot, player, bot_maximizing);
    if b[k - 1] is Empty {
        lemma_empty_count_update(b, k - 1, m);
        lemma_minimax_bounds(b.update(k - 1, m), !maximizing, bot, player, bot_maximizing);
        if exists|j: int| 0 <= j < k - 1 && b[j] is Empty {
            lemma_children_best_bounds(b, maximizing, bot, player, bot_maximizing, k - 1);
        } else {
            assert(forall|j: int| 0 <= j < k - 1 ==> !(#[trigger] b[j] is Empty));
            lemma_children_best_sentinel(b, maximizing, bot, player, bot_maximizing, k - 1);
        }
    } else {
        assert(exists|j: int| 0 <= j < k - 1 && b[j] is Empty) by {
            let j0 = choose|j: int| 0 <= j < k && b[j] is Empty;
            assert(0 <= j0 < k - 1 && b[j0] is Empty);
        }
        lemma_children_best_bounds(b, maximizing, bot, player, bot_maximizing, k - 1);
    }
}

/// A fold covering the empty cell `i` is at least as good, for the folding
/// side, as the child at `i`.
pub proof fn lemma_children_best_dominates(
    b: Seq<Cell>,
    maximizing: bool,
    bot: Cell,
    player: Cell,
    bot_maximizing: bool,
    i: int,
    k: int,
)
    requires
        b.len() == 9,
        !(bot is Empty),
        !(player is Empty),
        0 <= i < k <= 9,
        b[i] is Empty,
    ensures
        maximizing ==> children_best(b, maximizing, bot, player, bot_maximizing, k)
            >= spec_minimax(
            b.update(i, ply_mark(maximizing, bot, player, bot_maximizing)),
            !maximizing,
            bot,
            player,
            bot_maximizing,
        ),
        !maximizing ==> children_best(b, maximizing, bot, player, bot_maximizing, k)
            <= spec_minimax(
            b.update(i, ply_mark(maximizing, bot, player, bot_maximizing)),
            !maximizing,
            bot,
            player,
            bot_maximizing,
        ),
    decreases k,
{
    if i < k - 1 {
        lemma_children_best_dominates(b, maximizing, bot, player, bot_maximizing, i, k - 1);
    }
}

impl Game {
    /// The exhaustive recursive search: the terminal score at a leaf, and
    /// otherwise the best value over every empty cell, placing the mark of
    /// the side whose ply it is and restoring the cell before trying the
    /// next. The board is returned to its exact pre-call state.
    #[verifier::loop_isolation(false)]
    pub fn minimax(&mut self, depth: i32, maximizing_player: bool) -> (score: i32)
        requires
            old(self).wf(),
            depth + empty_count(old(self).board@) <= i32::MAX,
        ensures
            final(self).board@ == old(self).board@,
            final(self).turn == old(self).turn,
            final(self).same_setup(*old(self)),
            score as int == spec_minimax(
                old(self).board@,
                maximizing_player,
                old(self).bot,
                old(self).player,
                old(self).bot_maximizing,
            ),
        decreases empty_count(old(self).board@),
    {
        let score0 = self.evaluate();
        if score0 == 10 {
            return score0;
        }
        if score0 == -10 {
            return score0;
        }
        if score0 == 0 {
            return score0;
        }

        let ghost b0 = self.board@;
        let mark = if maximizing_player == self.bot_maximizing {
            self.bot
        } else {
            self.player
        };
        let mut acc: i32 = if maximizing_player {
            -10000
        } else {
            10000
        };
        let mut k: usize = 0;
        while k < 9
            invariant
                0 <= k <= 9,
                self.board@ == b0,
                self.turn == old(self).turn,
                self.same_setup(*old(self)),
                acc as int == children_best(
                    b0,
                    maximizing_player,
                    old(self).bot,
                    old(self).player,
                    old(self).bot_maximizing,
                    k as int,
                ),
            decreases 9 - k,
        {
            if self.board[k] == Cell::Empty {
                self.board[k] = mark;
                proof {
                    lemma_empty_count_update(b0, k as int, mark);
                }
                let child = self.minimax(depth + 1, !maximizing_player);
                self.board[k] = Cell::Empty;
                proof {
                    assert(self.board@ =~= b0);
                }
                if maximizing_player {
                    if child > acc {
                        acc = child;
                    }
                } else {
                    if child < acc {
                        acc = child;
                    }
                }
            }
            k = k + 1;
        }
        acc
    }

    /// The engine's choice of move for the automated side: the 1-based
    /// position of the first empty cell, in row-major order, whose child
    /// value no other empty cell strictly beats. The board and the rest of
    /// the state are returned unchanged.
    #[verifier::loop_isolation(false)]
    pub fn compute_bot_move(&mut self) -> (position: u32)
        requires
            old(self).wf(),
            !board_full(old(self).board@),
        ensures
            final(self).board@ == old(self).board@,
            final(self).turn == old(self).turn,
            final(self).same_setup(*old(self)),
            1 <= position <= 9,
            old(self).board@[position as int - 1] is Empty,
            is_best_choice(
                old(self).board@,
                old(self).bot,
                old(self).player,
                old(self).bot_maximizing,
                position as int - 1,
            ),
            position as int - 1 == spec_best_cell(
                old(self).board@,
                old(self).bot,
                old(self).player,
                old(self).bot_maximizing,
            ),
    {
        let ghost b0 = self.board@;
        let ghost bot = self.bot;
        let ghost player = self.player;
        let ghost bm = self.bot_maximizing;
        let mut best_k: usize = 0;
        let mut best_val: i32 = if self.bot_maximizing {
            -10000
        } else {
            10000
        };
        let mut k: usize = 0;
        while k < 9
            invariant
                0 <= k <= 9,
                self.board@ == b0,
                self.turn == old(self).turn,
                self.same_setup(*old(self)),
                (forall|j: int| 0 <= j < k ==> !(b0[j] is Empty)) ==> best_val as int
                    == search_sentinel(bm),
                (exists|j: int| 0 <= j < k && b0[j] is Empty) ==> {
                    &&& best_k < k
                    &&& b0[best_k as int] is Empty
                    &&& best_val as int == child_val(b0, bot, player, bm, best_k as int)
                    &&& -10 <= best_val <= 10
                    &&& forall|j: int|
                        0 <= j < k && b0[j] is Empty ==> !bot_prefers(
                            bm,
                            #[trigger] child_val(b0, bot, player, bm, j),
                            child_val(b0, bot, player, bm, best_k as int),
                        )
                    &&& forall|j: int|
                        0 <= j < best_k && b0[j] is Empty ==> bot_prefers(
                            bm,
                            child_val(b0, bot, player, bm, best_k as int),
                            #[trigger] child_val(b0, bot, player, bm, j),
                        )
                },
            decreases 9 - k,
        {
            if self.board[k] == Cell::Empty {
                self.board[k] = self.bot;
                proof {
                    lemma_empty_count_update(b0, k as int, bot);
                    lemma_empty_count_le_len(b0.update(k as int, bot));
                }
                let mv = self.minimax(0, !self.bot_maximizing);
                self.board[k] = Cell::Empty;
                proof {
                    assert(self.board@ =~= b0);
                    lemma_minimax_bounds(b0.update(k as int, bot), !bm, bot, player, bm);
                    assert(mv as int == child_val(b0, bot, player, bm, k as int));
                }
                let improves = if self.bot_maximizing {
                    mv > best_val
                } else {
                    mv < best_val
                };
                if improves {
                    best_k = k;
                    best_val = mv;
                }
            }
            k = k + 1;
        }
        proof {
            lemma_not_full_has_empty(b0);
            assert(is_best_choice(b0, bot, player, bm, best_k as int));
            let c = spec_best_cell(b0, bot, player, bm);
            assert(is_best_choice(b0, bot, player, bm, c)) by {
                assert(exists|k2: int| is_best_choice(b0, bot, player, bm, k2));
            }
            lemma_best_choice_unique(b0, bot, player, bm, best_k as int, c);
        }
        (best_k + 1) as u32
    }

    /// Computes the engine's move and places the automated side's mark there.
    pub fn get_bot_move(&mut self)
        requires
            old(self).wf(),
            !board_full(old(self).board@),
        ensures
            final(self).board@ == old(self).board@.update(
                spec_best_cell(
                    old(self).board@,
                    old(self).bot,
                    old(self).player,
                    old(self).bot_maximizing,
                ),
                old(self).bot,
            ),
            final(self).turn == old(self).turn,
            final(self).same_setup(*old(self)),
            final(self).wf(),
    {
        let position = self.compute_bot_move();
        let (row, col) = self.get_move(position);
        self.board[row * 3 + col] = self.bot;
    }
}

} // verus!
