//! The per-cell transition rule and the generation it induces on a field.
//!
//! The rule is the classic one: a dead cell with exactly three live
//! neighbours is born, a live cell with two or three live neighbours
//! survives, every other cell is dead in the next generation. The field is a
//! torus: the row above the first is the last, the column left of the first
//! is the last.

use vstd::arithmetic::div_mod::lemma_fundamental_div_mod_converse;
use vstd::prelude::*;

verus! {

/// Whether a cell lives in the next generation, given its state and the
/// number of its live neighbours.
pub open spec fn next_state(alive: bool, neighbours: int) -> bool {
    neighbours == 3 || (alive && neighbours == 2)
}

/// Position in a row-major field of side `n` of the cell at `row`, `col`.
pub open spec fn cell_index(n: int, row: int, col: int) -> int {
    row * n + col
}

/// 1 if the cell that `row`, `col` names on the torus of side `n` is alive,
/// 0 if it is dead. Coordinates one step outside the field wrap around.
pub open spec fn population_at(cells: Seq<bool>, n: int, row: int, col: int) -> int {
    if cells[cell_index(n, row % n, col % n)] {
        1
    } else {
        0
    }
}

/// Number of live cells among the eight that surround `row`, `col`.
pub open spec fn live_neighbours(cells: Seq<bool>, n: int, row: int, col: int) -> int {
    population_at(cells, n, row - 1, col - 1) + population_at(cells, n, row - 1, col)
        + population_at(cells, n, row - 1, col + 1) + population_at(cells, n, row, col - 1)
        + population_at(cells, n, row, col + 1) + population_at(cells, n, row + 1, col - 1)
        + population_at(cells, n, row + 1, col) + population_at(cells, n, row + 1, col + 1)
}

/// State in the next generation of the cell stored at position `i`.
pub open spec fn next_cell(cells: Seq<bool>, n: int, i: int) -> bool {
    next_state(cells[i], live_neighbours(cells, n, i / n, i % n))
}

/// The field one tick after `cells`: every cell is updated once, from the
/// field before the tick.
pub open spec fn next_generation(cells: Seq<bool>, n: int) -> Seq<bool> {
    Seq::new(cells.len(), |i: int| next_cell(cells, n, i))
}

/// The field `ticks` ticks after `cells`.
pub open spec fn generation(cells: Seq<bool>, n: int, ticks: nat) -> Seq<bool>
    decreases ticks,
{
    if ticks == 0 {
        cells
    } else {
        next_generation(generation(cells, n, (ticks - 1) as nat), n)
    }
}

/// Decides the next state of one cell.
pub fn step_cell(alive: bool, neighbours: u8) -> (next: bool)
    ensures
        next == next_state(alive, neighbours as int),
{
    neighbours == 3 || (alive && neighbours == 2)
}

/// Row-major positions stay inside the field, and row and column are read
/// back from a position by division and remainder.
pub proof fn lemma_cell_index(n: int, row: int, col: int)
    requires
        0 <= row < n,
        0 <= col < n,
    ensures
        0 <= cell_index(n, row, col) < n * n,
        cell_index(n, row, col) / n == row,
        cell_index(n, row, col) % n == col,
{
    assert(row * n + n <= n * n) by (nonlinear_arith)
        requires
            0 <= row < n,
    ;
    assert(0 <= row * n) by (nonlinear_arith)
        requires
            0 <= row,
            0 < n,
    ;
    lemma_fundamental_div_mod_converse(row * n + col, n, row, col);
}

/// On a ring of `n` places, the place before the first is the last and the
/// place after the last is the first.
pub proof fn lemma_wrap(n: int, i: int)
    requires
        0 <= i < n,
    ensures
        i % n == i,
        (i - 1) % n == (if i == 0 {
            n - 1
        } else {
            i - 1
        }),
        (i + 1) % n == (if i + 1 == n {
            0
        } else {
            i + 1
        }),
{
    lemma_fundamental_div_mod_converse(i, n, 0, i);
    if i == 0 {
        lemma_fundamental_div_mod_converse(i - 1, n, -1, n - 1);
    } else {
        lemma_fundamental_div_mod_converse(i - 1, n, 0, i - 1);
    }
    if i + 1 == n {
        lemma_fundamental_div_mod_converse(i + 1, n, 1, 0);
    } else {
        lemma_fundamental_div_mod_converse(i + 1, n, 0, i + 1);
    }
}

/// A tick keeps the number of cells.
pub proof fn lemma_generation_len(cells: Seq<bool>, n: int, ticks: nat)
    ensures
        generation(cells, n, ticks).len() == cells.len(),
    decreases ticks,
{
    if ticks > 0 {
        lemma_generation_len(cells, n, (ticks - 1) as nat);
    }
}

/// Ticks compose: `a` ticks and then `b` more are `a + b` ticks.
pub proof fn lemma_generation_add(cells: Seq<bool>, n: int, a: nat, b: nat)
    ensures
        generation(generation(cells, n, a), n, b) == generation(cells, n, a + b),
    decreases b,
{
    if b > 0 {
        lemma_generation_add(cells, n, a, (b - 1) as nat);
        assert(a + b - 1 == a + (b - 1));
    }
}

} // verus!
