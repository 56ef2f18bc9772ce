//! The mathematical model of the automaton: the toroidal neighbor census and
//! the birth/survival rule, stated over sequences of cells so that the
//! executable grid can be proved against them.

use vstd::prelude::*;
use vstd::arithmetic::div_mod::{lemma_mod_multiples_vanish, lemma_small_mod};
use crate::cell::{flip, Cell};

verus! {

/// 1 for a live cell and 0 for a dead one, so a neighborhood can be summed.
pub open spec fn live_count(c: Cell) -> int {
    if c == Cell::Alive {
        1
    } else {
        0
    }
}

/// The position just before `i` on a ring of `n` positions.
pub open spec fn wrap_dec(i: int, n: int) -> int {
    if i == 0 {
        n - 1
    } else {
        i - 1
    }
}

/// The position just after `i` on a ring of `n` positions.
pub open spec fn wrap_inc(i: int, n: int) -> int {
    if i == n - 1 {
        0
    } else {
        i + 1
    }
}

/// The cell of a row-major board at `(row, col)`.
pub open spec fn cell_at(cells: Seq<Cell>, width: int, row: int, col: int) -> Cell {
    cells[row * width + col]
}

/// How many of the eight toroidal neighbors of `(row, col)` are alive.
///
/// When the board is only one row or one column wide, several of the eight
/// slots land on the same cell and that cell is counted once per slot; the
/// census deliberately performs all eight lookups without deduplication.
pub open spec fn neighbor_count(
    cells: Seq<Cell>,
    width: int,
    height: int,
    row: int,
    col: int,
) -> int {
    let up = wrap_dec(row, height);
    let down = wrap_inc(row, height);
    let left = wrap_dec(col, width);
    let right = wrap_inc(col, width);
    live_count(cell_at(cells, width, up, left)) + live_count(cell_at(cells, width, up, col))
        + live_count(cell_at(cells, width, up, right)) + live_count(
        cell_at(cells, width, row, left),
    ) + live_count(cell_at(cells, width, row, right)) + live_count(
        cell_at(cells, width, down, left),
    ) + live_count(cell_at(cells, width, down, col)) + live_count(
        cell_at(cells, width, down, right),
    )
}

/// The same census written with modulus arithmetic over the 3x3 window:
/// each neighbor coordinate is `(row + dr) mod height, (col + dc) mod width`
/// for the eight offsets around the cell.
pub open spec fn neighbor_count_mod(
    cells: Seq<Cell>,
    width: int,
    height: int,
    row: int,
    col: int,
) -> int {
    let up = (row - 1 + height) % height;
    let down = (row + 1) % height;
    let left = (col - 1 + width) % width;
    let right = (col + 1) % width;
    live_count(cell_at(cells, width, up, left)) + live_count(cell_at(cells, width, up, col))
        + live_count(cell_at(cells, width, up, right)) + live_count(
        cell_at(cells, width, row, left),
    ) + live_count(cell_at(cells, width, row, right)) + live_count(
        cell_at(cells, width, down, left),
    ) + live_count(cell_at(cells, width, down, col)) + live_count(
        cell_at(cells, width, down, right),
    )
}

/// The birth/survival rule for one cell, with the four clauses in their
/// stated order of priority: underpopulation, stability, overpopulation,
/// reproduction; every other cell is unchanged.
pub open spec fn next_cell(c: Cell, neighbors: int) -> Cell {
    if c == Cell::Alive && neighbors < 2 {
        Cell::Dead
    } else if c == Cell::Alive && (neighbors == 2 || neighbors == 3) {
        Cell::Alive
    } else if c == Cell::Alive && neighbors > 3 {
        Cell::Dead
    } else if c == Cell::Dead && neighbors == 3 {
        Cell::Alive
    } else {
        c
    }
}

/// One generation of the whole board: every position advances under
/// `next_cell`, judged against the pre-transition state alone.
pub open spec fn step(cells: Seq<Cell>, width: int, height: int) -> Seq<Cell> {
    Seq::new(
        cells.len(),
        |i: int| next_cell(cells[i], neighbor_count(cells, width, height, i / width, i % width)),
    )
}

/// The board after the cell at `idx` is toggled.
pub open spec fn toggled(cells: Seq<Cell>, idx: int) -> Seq<Cell> {
    cells.update(idx, flip(cells[idx]))
}

/// Advancing is deterministic: the next generation is a function of the
/// dimensions and the cells alone, so equal boards advance to equal boards.
pub proof fn lemma_step_deterministic(a: Seq<Cell>, b: Seq<Cell>, width: int, height: int)
    requires
        a == b,
    ensures
        step(a, width, height) == step(b, width, height),
{
}

/// The boundary cases of the rule: a live cell with exactly 2 or 3 live
/// neighbors survives and dies with 1 or fewer or 4 or more; a dead cell
/// with exactly 3 live neighbors is born and stays dead otherwise.
pub proof fn lemma_rule_boundary(c: Cell, neighbors: int)
    ensures
        c == Cell::Alive && (neighbors == 2 || neighbors == 3) ==> next_cell(c, neighbors)
            == Cell::Alive,
        c == Cell::Alive && (neighbors <= 1 || neighbors >= 4) ==> next_cell(c, neighbors)
            == Cell::Dead,
        c == Cell::Dead && neighbors == 3 ==> next_cell(c, neighbors) == Cell::Alive,
        c == Cell::Dead && neighbors != 3 ==> next_cell(c, neighbors) == Cell::Dead,
{
}

/// Toggling the same position twice returns the board to its original state.
pub proof fn lemma_toggle_twice(cells: Seq<Cell>, idx: int)
    requires
        0 <= idx < cells.len(),
    ensures
        toggled(toggled(cells, idx), idx) == cells,
{
    let once = toggled(cells, idx);
    assert(once[idx] == flip(cells[idx]));
    assert(toggled(once, idx) =~= cells);
}

/// A remainder taken just below twice the modulus needs at most one
/// subtraction.
proof fn lemma_mod_one_fold(x: int, n: int)
    requires
        0 < n,
        0 <= x < 2 * n,
    ensures
        x % n == if x < n {
            x
        } else {
            x - n
        },
{
    if x < n {
        lemma_small_mod(x as nat, n as nat);
    } else {
        lemma_mod_multiples_vanish(1, x - n, n);
        lemma_small_mod((x - n) as nat, n as nat);
    }
}

/// The wrapped steps agree with modulus arithmetic: precomputing the ring
/// neighbors with comparisons gives the same positions as reducing
/// `i - 1 + n` and `i + 1` modulo `n`, so a census written either way
/// counts the same cells.
pub proof fn lemma_wrap_matches_mod(i: int, n: int)
    requires
        0 <= i < n,
    ensures
        wrap_dec(i, n) == (i - 1 + n) % n,
        wrap_inc(i, n) == (i + 1) % n,
{
    lemma_mod_one_fold(i - 1 + n, n);
    lemma_mod_one_fold(i + 1, n);
}

/// The two census strategies agree: precomputing the ring neighbors with
/// comparisons and reducing each offset coordinate with a modulus count the
/// same cells, on any board with at least one row and one column.
pub proof fn lemma_census_variants_agree(
    cells: Seq<Cell>,
    width: int,
    height: int,
    row: int,
    col: int,
)
    requires
        0 <= row < height,
        0 <= col < width,
    ensures
        neighbor_count_mod(cells, width, height, row, col) == neighbor_count(
            cells,
            width,
            height,
            row,
            col,
        ),
{
    lemma_wrap_matches_mod(row, height);
    lemma_wrap_matches_mod(col, width);
}

} // verus!
