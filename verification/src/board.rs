//! The board model: cell values, the 3x3 grid as a sequence of nine cells,
//! winning lines, fullness, and a count of the empty cells.

use vstd::prelude::*;

verus! {

/// One cell of the grid: unoccupied, or holding one of the two players' marks.
#[derive(Clone, Copy, PartialEq, Eq, Structural, Debug)]
pub enum Cell {
    Empty,
    MarkA,
    MarkB,
}

/// The row-major index of the cell at `(row, col)`.
pub open spec fn cell_index(row: int, col: int) -> int {
    row * 3 + col
}

/// The three cells at indices `i`, `j`, `k` form a completed line:
/// all equal and none of them empty.
pub open spec fn line_wins(b: Seq<Cell>, i: int, j: int, k: int) -> bool {
    &&& b[i] != Cell::Empty
    &&& b[i] == b[j]
    &&& b[j] == b[k]
}

/// The mark of the first completed line, scanning the three rows, then the
/// three columns, then the two diagonals; `None` when no line is completed.
pub open spec fn spec_winner(b: Seq<Cell>) -> Option<Cell> {
    if line_wins(b, 0, 1, 2) {
        Some(b[0])
    } else if line_wins(b, 3, 4, 5) {
        Some(b[3])
    } else if line_wins(b, 6, 7, 8) {
        Some(b[6])
    } else if line_wins(b, 0, 3, 6) {
        Some(b[0])
    } else if line_wins(b, 1, 4, 7) {
        Some(b[1])
    } else if line_wins(b, 2, 5, 8) {
        Some(b[2])
    } else if line_wins(b, 0, 4, 8) {
        Some(b[0])
    } else if line_wins(b, 2, 4, 6) {
        Some(b[2])
    } else {
        None
    }
}

/// Some row, column or diagonal consists of three cells holding mark `m`.
pub open spec fn has_winning_line(b: Seq<Cell>, m: Cell) -> bool {
    ||| (line_wins(b, 0, 1, 2) && b[0] == m)
    ||| (line_wins(b, 3, 4, 5) && b[3] == m)
    ||| (line_wins(b, 6, 7, 8) && b[6] == m)
    ||| (line_wins(b, 0, 3, 6) && b[0] == m)
    ||| (line_wins(b, 1, 4, 7) && b[1] == m)
    ||| (line_wins(b, 2, 5, 8) && b[2] == m)
    ||| (line_wins(b, 0, 4, 8) && b[0] == m)
    ||| (line_wins(b, 2, 4, 6) && b[2] == m)
}

/// Every cell of the board is occupied.
pub open spec fn board_full(b: Seq<Cell>) -> bool {
    forall|i: int| 0 <= i < 9 ==> b[i] != Cell::Empty
}

/// How many cells of `b` are empty.
pub open spec fn empty_count(b: Seq<Cell>) -> nat
    decreases b.len(),
{
    if b.len() == 0 {
        0
    } else {
        empty_count(b.drop_last()) + (if b.last() is Empty { 1nat } else { 0nat })
    }
}

/// Overwriting an empty cell with a mark lowers the empty-cell count by one.
pub proof fn lemma_empty_count_update(b: Seq<Cell>, k: int, m: Cell)
    requires
        0 <= k < b.len(),
        b[k] is Empty,
        !(m is Empty),
    ensures
        empty_count(b.update(k, m)) + 1 == empty_count(b),
    decreases b.len(),
{
    let b2 = b.update(k, m);
    if k == b.len() - 1 {
        assert(b2.drop_last() =~= b.drop_last());
    } else {
        assert(b2.drop_last() =~= b.drop_last().update(k, m));
        lemma_empty_count_update(b.drop_last(), k, m);
    }
}

/// The empty-cell count is zero exactly when every cell is occupied.
pub proof fn lemma_empty_count_zero(b: Seq<Cell>)
    ensures
        (empty_count(b) == 0) <==> (forall|i: int| 0 <= i < b.len() ==> !(b[i] is Empty)),
    decreases b.len(),
{
    if b.len() > 0 {
        lemma_empty_count_zero(b.drop_last());
        assert(forall|i: int| 0 <= i < b.len() - 1 ==> b.drop_last()[i] == b[i]);
        if empty_count(b) == 0 {
            assert(forall|i: int| 0 <= i < b.len() ==> !(b[i] is Empty)) by {
                assert(!(b.last() is Empty));
                assert(forall|i: int| 0 <= i < b.len() - 1 ==> !(#[trigger] b[i] is Empty));
            }
        }
    }
}

/// The empty-cell count never exceeds the board's length.
pub proof fn lemma_empty_count_le_len(b: Seq<Cell>)
    ensures
        empty_count(b) <= b.len(),
    decreases b.len(),
{
    if b.len() > 0 {
        lemma_empty_count_le_len(b.drop_last());
    }
}

/// A board of nine cells that is not full has an empty cell, and then a
/// positive empty-cell count.
pub proof fn lemma_not_full_has_empty(b: Seq<Cell>)
    requires
        b.len() == 9,
        !board_full(b),
    ensures
        exists|i: int| 0 <= i < 9 && b[i] is Empty,
        empty_count(b) > 0,
{
    assert(exists|i: int| 0 <= i < 9 && b[i] is Empty) by {
        if forall|i: int| 0 <= i < 9 ==> !(#[trigger] b[i] is Empty) {
            assert(board_full(b));
        }
    }
    lemma_empty_count_zero(b);
}

} // verus!
