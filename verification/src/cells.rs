//! A square field of cells, held as the device holds it.
//!
//! A cell is one bit of state. It is stored as a 32-bit word, 1 for a live
//! cell and 0 for a dead one, in row-major order, so that the field can go up
//! to the device byte for byte.

use crate::bytes::{holds_words, words_as_bytes};
use crate::error::GridError;
use crate::rule::{
    cell_index, generation, lemma_cell_index, lemma_wrap, live_neighbours, next_cell,
    next_generation, population_at, step_cell,
};
use crate::seed::{alive_from_draw, draw_alive, draw_many, seeded_cells};
use crate::stages::{
    instance_cell, lemma_instances_match_cells, reaches, runs, tiles, Dispatch,
};
use vstd::prelude::*;

verus! {

/// The largest side a field can have: beyond it the field's bytes, four to a
/// cell, no longer fit in 32 bits.
pub const MAX_FIELD_SIZE: u32 = 32767;

/// The words that store `cells`: 1 for a live cell, 0 for a dead one.
pub open spec fn cell_words(cells: Seq<bool>) -> Seq<u32> {
    Seq::new(cells.len(), |i: int| if cells[i] { 1u32 } else { 0u32 })
}

/// Number of live cells in `cells`.
pub open spec fn live_count(cells: Seq<bool>) -> nat
    decreases cells.len(),
{
    if cells.len() == 0 {
        0
    } else {
        live_count(cells.drop_last()) + if cells.last() { 1nat } else { 0nat }
    }
}

/// State after `dispatch` of the cell stored at position `i` of the field
/// that is written: its next state, computed from `read`, where an
/// invocation reaches the cell, and its state in `stale` where none does.
pub open spec fn written_cell(
    read: Seq<bool>,
    stale: Seq<bool>,
    n: int,
    dispatch: Dispatch,
    i: int,
) -> bool {
    if reaches(dispatch, i / n, i % n) {
        next_cell(read, n, i)
    } else {
        stale[i]
    }
}

/// The field that `dispatch` leaves in the buffer it writes.
pub open spec fn written_cells(
    read: Seq<bool>,
    stale: Seq<bool>,
    n: int,
    dispatch: Dispatch,
) -> Seq<bool> {
    Seq::new(read.len(), |i: int| written_cell(read, stale, n, dispatch, i))
}

/// A dispatch of as many workgroups as cover the side is one whole tick: it
/// leaves the next generation in the buffer it writes, whatever the buffer
/// held.
pub proof fn lemma_full_dispatch_is_a_tick(
    read: Seq<bool>,
    stale: Seq<bool>,
    n: int,
    dispatch: Dispatch,
)
    requires
        0 <= n,
        read.len() == n * n,
        tiles(dispatch, n),
    ensures
        written_cells(read, stale, n, dispatch) == next_generation(read, n),
{
    assert forall|i: int| 0 <= i < read.len() implies written_cell(read, stale, n, dispatch, i)
        == next_cell(read, n, i) by {
        lemma_instances_match_cells(n, i, 0, 0);
        let (row, col) = (i / n, i % n);
        assert(runs(dispatch, col / 8, row / 8, 0, col % 8, row % 8));
    }
    assert(written_cells(read, stale, n, dispatch) =~= next_generation(read, n));
}

/// A side within the limit has a square that fits in 32 bits with room to
/// spare.
proof fn lemma_side_squared(size: u32)
    requires
        size <= MAX_FIELD_SIZE,
    ensures
        size * size <= 32767 * 32767,
{
    assert(size * size <= 32767 * 32767) by (nonlinear_arith)
        requires
            size <= 32767,
    ;
}

/// A field of `size * size` cells. Its shape is fixed when it is made.
pub struct CellField {
    size: u32,
    cells: Vec<u32>,
}

impl View for CellField {
    type V = Seq<bool>;

    /// The cells in row-major order, `true` for alive.
    closed spec fn view(&self) -> Seq<bool> {
        Seq::new(self.cells@.len(), |i: int| self.cells@[i] == 1u32)
    }
}

impl CellField {
    /// The side is within the limit, there is one word a cell, and every
    /// word is 0 or 1.
    #[verifier::type_invariant]
    pub closed spec fn wf(&self) -> bool {
        &&& self.size <= MAX_FIELD_SIZE
        &&& self.cells@.len() == self.size * self.size
        &&& forall|i: int| 0 <= i < self.cells@.len() ==> self.cells@[i] <= 1
    }

    /// The side of the field.
    pub closed spec fn spec_size(&self) -> u32 {
        self.size
    }

    /// A well-formed field has `size * size` cells and a side within the
    /// limit.
    pub proof fn lemma_shape(&self)
        requires
            self.wf(),
        ensures
            self@.len() == self.size() * self.size(),
            self.size() <= MAX_FIELD_SIZE,
    {
    }

    /// A field with every cell dead.
    pub fn zeroed(size: u32) -> (made: Result<CellField, GridError>)
        ensures
            match made {
                Ok(field) => {
                    &&& size <= MAX_FIELD_SIZE
                    &&& field.wf()
                    &&& field.size() == size
                    &&& field@ == Seq::new((size * size) as nat, |i: int| false)
                },
                Err(error) => size > MAX_FIELD_SIZE && error == GridError::TooLarge,
            },
    {
        if size > MAX_FIELD_SIZE {
            Err(GridError::TooLarge)
        } else {
            Ok(CellField::dead(size))
        }
    }

    /// A field of the same side with every cell dead.
    pub fn cleared(&self) -> (field: CellField)
        ensures
            field.wf(),
            field.size() == self.size(),
            field@ == Seq::new(self@.len(), |i: int| false),
    {
        proof {
            use_type_invariant(self);
        }
        CellField::dead(self.size)
    }

    fn dead(size: u32) -> (field: CellField)
        requires
            size <= MAX_FIELD_SIZE,
        ensures
            field.wf(),
            field.size() == size,
            field@ == Seq::new((size * size) as nat, |i: int| false),
    {
        proof {
            lemma_side_squared(size);
        }
        let count: usize = (size * size) as usize;
        let mut cells: Vec<u32> = Vec::with_capacity(count);
        let mut filled: usize = 0;
        while filled < count
            invariant
                filled <= count,
                cells@.len() == filled,
                forall|i: int| 0 <= i < filled ==> cells@[i] == 0,
            decreases count - filled,
        {
            cells.push(0);
            filled = filled + 1;
        }
        let field = CellField { size, cells };
        assert(field@ =~= Seq::new((size * size) as nat, |i: int| false));
        field
    }

    /// The field that `draws` seed, one draw a cell in row-major order: a
    /// cell starts alive exactly when its draw lies above six tenths of the
    /// range.
    pub fn from_draws(size: u32, draws: &[u32]) -> (made: Result<CellField, GridError>)
        ensures
            match made {
                Ok(field) => {
                    &&& size <= MAX_FIELD_SIZE
                    &&& draws@.len() == size * size
                    &&& field.wf()
                    &&& field.size() == size
                    &&& field@ == seeded_cells(draws@)
                },
                Err(error) => {
                    &&& error == GridError::TooLarge <==> size > MAX_FIELD_SIZE
                    &&& error == GridError::SeedMismatch <==> size <= MAX_FIELD_SIZE && draws@.len()
                        != size * size
                    &&& error != GridError::Misaligned
                },
            },
    {
        if size > MAX_FIELD_SIZE {
            return Err(GridError::TooLarge);
        }
        proof {
            lemma_side_squared(size);
        }
        let count: usize = (size * size) as usize;
        if draws.len() != count {
            return Err(GridError::SeedMismatch);
        }
        let mut cells: Vec<u32> = Vec::with_capacity(count);
        let mut filled: usize = 0;
        while filled < count
            invariant
                filled <= count,
                count == draws@.len(),
                cells@.len() == filled,
                forall|i: int|
                    0 <= i < filled ==> cells@[i] == (if draw_alive(draws@[i]) {
                        1u32
                    } else {
                        0u32
                    }),
            decreases count - filled,
        {
            let alive = alive_from_draw(draws[filled]);
            cells.push(if alive { 1 } else { 0 });
            filled = filled + 1;
        }
        let field = CellField { size, cells };
        assert(field@ =~= seeded_cells(draws@));
        Ok(field)
    }

    /// A field seeded from the thread's random generator: each cell is alive
    /// with a probability of about two in five.
    pub fn seeded(size: u32) -> (made: Result<CellField, GridError>)
        ensures
            match made {
                Ok(field) => size <= MAX_FIELD_SIZE && field.wf() && field.size() == size,
                Err(error) => size > MAX_FIELD_SIZE && error == GridError::TooLarge,
            },
    {
        if size > MAX_FIELD_SIZE {
            return Err(GridError::TooLarge);
        }
        proof {
            lemma_side_squared(size);
        }
        let draws = draw_many((size * size) as usize);
        CellField::from_draws(size, draws.as_slice())
    }

    #[verifier::when_used_as_spec(spec_size)]
    pub fn size(&self) -> (size: u32)
        ensures
            size == self.spec_size(),
    {
        self.size
    }

    /// The state of the cell at `row`, `col`, or nothing where the field has
    /// no such cell.
    pub fn get(&self, row: u32, col: u32) -> (cell: Option<bool>)
        ensures
            cell == (if row < self.size() && col < self.size() {
                Some(self@[cell_index(self.size() as int, row as int, col as int)])
            } else {
                None
            }),
    {
        proof {
            use_type_invariant(self);
        }
        if row < self.size && col < self.size {
            proof {
                lemma_cell_index(self.size as int, row as int, col as int);
                lemma_side_squared(self.size);
            }
            let at: usize = (row * self.size + col) as usize;
            Some(self.cells[at] == 1)
        } else {
            None
        }
    }

    /// The state that instance `index` of a draw shows: the state of the
    /// cell in row `index / size` and column `index % size`, which is the
    /// cell stored at position `index`. An instance beyond the last cell
    /// shows nothing.
    pub fn instance_state(&self, index: u32) -> (state: Option<bool>)
        ensures
            state == (if index < self@.len() {
                Some(self@[index as int])
            } else {
                None
            }),
    {
        proof {
            use_type_invariant(self);
        }
        match instance_cell(index, self.size) {
            Some((row, col)) => self.get(row, col),
            None => None,
        }
    }

    /// Number of live cells.
    pub fn alive_count(&self) -> (count: u32)
        ensures
            count == live_count(self@),
    {
        proof {
            use_type_invariant(self);
            lemma_side_squared(self.size);
        }
        let mut count: u32 = 0;
        let mut seen: usize = 0;
        while seen < self.cells.len()
            invariant
                seen <= self.cells@.len(),
                self.cells@.len() <= 32767 * 32767,
                count <= seen,
                count == live_count(self@.take(seen as int)),
            decreases self.cells@.len() - seen,
        {
            proof {
                assert(self@.take(seen + 1).drop_last() =~= self@.take(seen as int));
            }
            if self.cells[seen] == 1 {
                count = count + 1;
            }
            seen = seen + 1;
        }
        proof {
            assert(self@.take(seen as int) =~= self@);
        }
        count
    }

    /// The stored words, one a cell in row-major order.
    pub fn words(&self) -> (words: &[u32])
        ensures
            words@ == cell_words(self@),
    {
        proof {
            use_type_invariant(self);
        }
        let words = self.cells.as_slice();
        proof {
            assert(words@ =~= cell_words(self@));
        }
        words
    }

    /// The field as the bytes that are uploaded: the stored words, four
    /// bytes each, in the machine's byte order.
    pub fn as_bytes(&self) -> (bytes: &[u8])
        ensures
            holds_words(cell_words(self@), bytes@),
    {
        words_as_bytes(self.words())
    }

    /// 1 if the cell at `row`, `col` is alive, else 0.
    fn population(&self, row: u32, col: u32) -> (count: u8)
        requires
            self.wf(),
            row < self.size(),
            col < self.size(),
        ensures
            count <= 1,
            count == population_at(self@, self.size() as int, row as int, col as int),
    {
        proof {
            lemma_cell_index(self.size as int, row as int, col as int);
            lemma_side_squared(self.size);
            lemma_wrap(self.size as int, row as int);
            lemma_wrap(self.size as int, col as int);
        }
        let at: usize = (row * self.size + col) as usize;
        if self.cells[at] == 1 {
            1
        } else {
            0
        }
    }

    /// Number of live cells among the eight around `row`, `col`, on the
    /// torus.
    fn neighbours(&self, row: u32, col: u32) -> (count: u8)
        requires
            self.wf(),
            row < self.size(),
            col < self.size(),
        ensures
            count <= 8,
            count == live_neighbours(self@, self.size() as int, row as int, col as int),
    {
        let n = self.size;
        proof {
            lemma_wrap(n as int, row as int);
            lemma_wrap(n as int, col as int);
        }
        let up = if row == 0 { n - 1 } else { row - 1 };
        let down = if row + 1 == n { 0 } else { row + 1 };
        let left = if col == 0 { n - 1 } else { col - 1 };
        let right = if col + 1 == n { 0 } else { col + 1 };
        proof {
            lemma_wrap(n as int, up as int);
            lemma_wrap(n as int, down as int);
            lemma_wrap(n as int, left as int);
            lemma_wrap(n as int, right as int);
        }
        self.population(up, left) + self.population(up, col) + self.population(up, right)
            + self.population(row, left) + self.population(row, right) + self.population(
            down,
            left,
        ) + self.population(down, col) + self.population(down, right)
    }

    /// The field one tick later. Every cell is computed once, from this
    /// field; this field is left as it is.
    pub fn next(&self) -> (next: CellField)
        ensures
            next.wf(),
            next.size() == self.size(),
            next@ == next_generation(self@, self.size() as int),
    {
        proof {
            use_type_invariant(self);
        }
        let n = self.size;
        proof {
            lemma_side_squared(n);
        }
        let mut cells: Vec<u32> = Vec::with_capacity((n * n) as usize);
        let mut row: u32 = 0;
        while row < n
            invariant
                self.wf(),
                n == self.size(),
                row <= n,
                cells@.len() == row * n,
                forall|i: int|
                    0 <= i < cells@.len() ==> cells@[i] == (if next_cell(self@, n as int, i) {
                        1u32
                    } else {
                        0u32
                    }),
            decreases n - row,
        {
            let mut col: u32 = 0;
            while col < n
                invariant
                    self.wf(),
                    n == self.size(),
                    row < n,
                    col <= n,
                    cells@.len() == row * n + col,
                    forall|i: int|
                        0 <= i < cells@.len() ==> cells@[i] == (if next_cell(self@, n as int, i) {
                            1u32
                        } else {
                            0u32
                        }),
                decreases n - col,
            {
                proof {
                    lemma_cell_index(n as int, row as int, col as int);
                    lemma_wrap(n as int, row as int);
                    lemma_wrap(n as int, col as int);
                }
                let alive = self.population(row, col) == 1;
                let born = step_cell(alive, self.neighbours(row, col));
                cells.push(if born { 1 } else { 0 });
                col = col + 1;
            }
            proof {
                assert(row * n + n == (row + 1) * n) by (nonlinear_arith);
            }
            row = row + 1;
        }
        let next = CellField { size: n, cells };
        proof {
            assert(next@ =~= next_generation(self@, n as int));
        }
        next
    }

    /// The field that `dispatch` leaves in the buffer it writes, when this
    /// field is the one it reads and `stale` is what the buffer held: the
    /// next state in every cell that an invocation reaches, the stale state
    /// in every other cell.
    pub(crate) fn dispatched(&self, stale: &CellField, dispatch: Dispatch) -> (written: CellField)
        requires
            self.wf(),
            stale.wf(),
            stale.size() == self.size(),
        ensures
            written.wf(),
            written.size() == self.size(),
            written@ == written_cells(self@, stale@, self.size() as int, dispatch),
    {
        let n = self.size;
        proof {
            lemma_side_squared(n);
        }
        let mut cells: Vec<u32> = Vec::with_capacity((n * n) as usize);
        let mut row: u32 = 0;
        while row < n
            invariant
                self.wf(),
                stale.wf(),
                stale.size() == n,
                n == self.size(),
                row <= n,
                cells@.len() == row * n,
                forall|i: int|
                    0 <= i < cells@.len() ==> cells@[i] == (if written_cell(
                        self@,
                        stale@,
                        n as int,
                        dispatch,
                        i,
                    ) {
                        1u32
                    } else {
                        0u32
                    }),
            decreases n - row,
        {
            let mut col: u32 = 0;
            while col < n
                invariant
                    self.wf(),
                    stale.wf(),
                    stale.size() == n,
                    n == self.size(),
                    row < n,
                    col <= n,
                    cells@.len() == row * n + col,
                    forall|i: int|
                        0 <= i < cells@.len() ==> cells@[i] == (if written_cell(
                            self@,
                            stale@,
                            n as int,
                            dispatch,
                            i,
                        ) {
                            1u32
                        } else {
                            0u32
                        }),
                decreases n - col,
            {
                proof {
                    lemma_cell_index(n as int, row as int, col as int);
                    lemma_wrap(n as int, row as int);
                    lemma_wrap(n as int, col as int);
                }
                let state = if dispatch.updates(row, col) {
                    let alive = self.population(row, col) == 1;
                    step_cell(alive, self.neighbours(row, col))
                } else {
                    stale.population(row, col) == 1
                };
                cells.push(if state { 1 } else { 0 });
                col = col + 1;
            }
            proof {
                assert(row * n + n == (row + 1) * n) by (nonlinear_arith);
            }
            row = row + 1;
        }
        let written = CellField { size: n, cells };
        proof {
            assert(written@ =~= written_cells(self@, stale@, n as int, dispatch));
        }
        written
    }

    /// The field `ticks` ticks later, computed one generation after another.
    pub fn after(&self, ticks: u64) -> (later: CellField)
        ensures
            later.wf(),
            later.size() == self.size(),
            later@ == generation(self@, self.size() as int, ticks as nat),
    {
        proof {
            use_type_invariant(self);
        }
        let mut later = CellField { size: self.size, cells: self.cells.clone() };
        proof {
            assert(later@ =~= self@);
        }
        let mut done: u64 = 0;
        while done < ticks
            invariant
                done <= ticks,
                later.wf(),
                later.size() == self.size(),
                later@ == generation(self@, self.size() as int, done as nat),
            decreases ticks - done,
        {
            later = later.next();
            done = done + 1;
        }
        later
    }
}

} // verus!
