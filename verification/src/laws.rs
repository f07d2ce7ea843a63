//! Laws of the engine and the evaluator, proved once and for all: a reported
//! win always has a completed line behind it, an immediate win is taken, a
//! necessary block is played, and ties break toward the earlier cell.

use vstd::prelude::*;

use crate::board::{board_full, has_winning_line, spec_winner, Cell};
use crate::engine::{
    bot_prefers, child_val, children_best, is_best_choice, lemma_children_best_dominates,
    lemma_minimax_bounds, lose_score, ply_mark, spec_minimax, terminal_score, win_score,
};
use crate::game::{spec_outcome, Outcome};

verus! {

/// The evaluator never reports a win without a completed line: whenever the
/// outcome of a board is `Won(m)`, some row, column or diagonal consists of
/// three cells holding `m`.
pub proof fn lemma_won_has_line(b: Seq<Cell>, m: Cell)
    requires
        spec_outcome(b) == Outcome::Won(m),
    ensures
        has_winning_line(b, m),
{
}

/// Placing a mark on an empty cell of a board without a completed line
/// either still leaves no completed line, or completes a line of that very
/// mark: it can never complete the other side's line.
pub proof fn lemma_update_winner(b: Seq<Cell>, j: int, m: Cell)
    requires
        b.len() == 9,
        spec_winner(b) is None,
        0 <= j < 9,
        b[j] is Empty,
        !(m is Empty),
    ensures
        spec_winner(b.update(j, m)) is None || spec_winner(b.update(j, m)) == Some(m),
{
}

/// When the automated side can complete one of its own lines by playing the
/// empty cell `k`, and no earlier empty cell also attains the winning score,
/// the engine's choice is exactly `k`, and its value is the winning score.
/// (An earlier cell that also forces a win, though not at once, would win
/// the tie-break instead; the premise rules those boards out.)
pub proof fn lemma_immediate_win_selected(
    b: Seq<Cell>,
    bot: Cell,
    player: Cell,
    bm: bool,
    k: int,
    c: int,
)
    requires
        b.len() == 9,
        !(bot is Empty),
        !(player is Empty),
        0 <= k < 9,
        b[k] is Empty,
        spec_winner(b.update(k, bot)) == Some(bot),
        forall|j: int|
            0 <= j < k && b[j] is Empty ==> #[trigger] child_val(b, bot, player, bm, j)
                != win_score(bm),
        is_best_choice(b, bot, player, bm, c),
    ensures
        c == k,
        child_val(b, bot, player, bm, k) == win_score(bm),
{
    assert(terminal_score(b.update(k, bot), bot, bm) == win_score(bm));
    assert(child_val(b, bot, player, bm, k) == win_score(bm));
    lemma_minimax_bounds(b.update(c, bot), !bm, bot, player, bm);
    assert(!bot_prefers(
        bm,
        child_val(b, bot, player, bm, k),
        child_val(b, bot, player, bm, c),
    ));
    assert(child_val(b, bot, player, bm, c) == win_score(bm));
    if c > k {
        assert(bot_prefers(
            bm,
            child_val(b, bot, player, bm, c),
            child_val(b, bot, player, bm, k),
        ));
    }
}

/// After the automated side plays any empty cell other than `k` on a board
/// where the opponent completes a line at `k`, the opponent's threat is
/// intact and the opponent to move takes it: the automated side's value for
/// every such cell is the losing score.
proof fn lemma_unblocked_threat_loses(
    b: Seq<Cell>,
    bot: Cell,
    player: Cell,
    bm: bool,
    k: int,
    j: int,
)
    requires
        b.len() == 9,
        (bot == Cell::MarkA || bot == Cell::MarkB),
        (player == Cell::MarkA || player == Cell::MarkB),
        player != bot,
        spec_winner(b) is None,
        0 <= k < 9,
        b[k] is Empty,
        spec_winner(b.update(k, player)) == Some(player),
        0 <= j < 9,
        b[j] is Empty,
        j != k,
        spec_winner(b.update(j, bot)) != Some(bot),
    ensures
        child_val(b, bot, player, bm, j) == lose_score(bm),
{
    let bj = b.update(j, bot);
    lemma_update_winner(b, j, bot);
    assert(spec_winner(bj) is None);
    assert(bj[k] is Empty);
    assert(!board_full(bj));
    assert(terminal_score(bj, bot, bm) == -1);

    let bkp = b.update(k, player);
    let bjk = bj.update(k, player);
    assert(has_winning_line(bkp, player));
    assert(has_winning_line(bjk, player)) by {
        assert(bkp[j] is Empty);
        assert(forall|c: int| 0 <= c < 9 && c != j ==> bjk[c] == bkp[c]);
    }
    assert(spec_winner(bjk) is Some);
    lemma_update_winner(bj, k, player);
    assert(spec_winner(bjk) == Some(player));
    assert(terminal_score(bjk, bot, bm) == lose_score(bm));
    assert(ply_mark(!bm, bot, player, bm) == player);
    assert(spec_minimax(bjk, bm, bot, player, bm) == lose_score(bm));

    lemma_children_best_dominates(bj, !bm, bot, player, bm, k, 9);
    lemma_minimax_bounds(bj, !bm, bot, player, bm);
    assert(child_val(b, bot, player, bm, j) == spec_minimax(bj, !bm, bot, player, bm));
    assert(spec_minimax(bj, !bm, bot, player, bm) == children_best(bj, !bm, bot, player, bm, 9));
}

/// When the opponent completes a line by playing the empty cell `k`, the
/// automated side has no immediate win of its own anywhere, and blocking at
/// `k` does not itself lose, the engine's choice is exactly the blocking
/// cell `k`. (When even the block loses — a double threat — every move
/// scores the same and the premise rules the board out.)
pub proof fn lemma_forced_block_selected(
    b: Seq<Cell>,
    bot: Cell,
    player: Cell,
    bm: bool,
    k: int,
    c: int,
)
    requires
        b.len() == 9,
        (bot == Cell::MarkA || bot == Cell::MarkB),
        (player == Cell::MarkA || player == Cell::MarkB),
        player != bot,
        spec_winner(b) is None,
        0 <= k < 9,
        b[k] is Empty,
        spec_winner(b.update(k, player)) == Some(player),
        forall|j: int|
            0 <= j < 9 && b[j] is Empty ==> #[trigger] spec_winner(b.update(j, bot)) != Some(bot),
        child_val(b, bot, player, bm, k) != lose_score(bm),
        is_best_choice(b, bot, player, bm, c),
    ensures
        c == k,
{
    lemma_minimax_bounds(b.update(k, bot), !bm, bot, player, bm);
    if c != k {
        lemma_unblocked_threat_loses(b, bot, player, bm, k, c);
        assert(!bot_prefers(
            bm,
            child_val(b, bot, player, bm, k),
            child_val(b, bot, player, bm, c),
        ));
    }
}

/// The tie-break is deterministic: of two empty cells with equal child
/// value, the engine never chooses the later one in row-major order.
pub proof fn lemma_tie_break(
    b: Seq<Cell>,
    bot: Cell,
    player: Cell,
    bm: bool,
    i: int,
    j: int,
    c: int,
)
    requires
        0 <= i < j < 9,
        b[i] is Empty,
        b[j] is Empty,
        child_val(b, bot, player, bm, i) == child_val(b, bot, player, bm, j),
        is_best_choice(b, bot, player, bm, c),
    ensures
        c != j,
{
    if c == j {
        assert(bot_prefers(
            bm,
            child_val(b, bot, player, bm, j),
            child_val(b, bot, player, bm, i),
        ));
    }
}

} // verus!
