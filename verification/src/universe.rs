//! The grid itself: cell storage, dimensions, the generation step, and the
//! seeding and editing calls a host drives between generations.

use vstd::prelude::*;
use vstd::arithmetic::div_mod::lemma_fundamental_div_mod_converse;
use crate::cell::{flip, Cell};
use crate::rng::gen_range_u32;
use crate::rules::{neighbor_count, next_cell, step, toggled};

verus! {

/// How a board is populated when it is constructed or reseeded.
#[derive(Clone, Copy, Debug, PartialEq, Eq, Structural)]
pub enum InitialPattern {
    /// A named fixed arrangement. No build of this library carries one yet,
    /// so seeding with it is refused rather than silently replaced.
    Complex1,
    /// Every cell drawn independently, alive one chance in twenty.
    Random5050,
}

/// Why a seeding request was refused.
#[derive(Clone, Copy, Debug, PartialEq, Eq, Structural)]
pub enum GridError {
    /// The requested fixed pattern is not available.
    UnsupportedPattern,
}

/// One chance in this many that a randomly seeded cell starts alive.
pub const SPARSE_DENOMINATOR: u32 = 20;

/// The columns and rows of the default board built by [`Universe::new`].
pub const DEFAULT_SIDE: u32 = 128;

/// The mathematical shape of a [`Universe`]: its dimensions, its board, the
/// snapshot of the previous generation, and the input-suppression flag.
pub ghost struct UniverseView {
    pub width: int,
    pub height: int,
    pub cells: Seq<Cell>,
    pub prevcells: Seq<Cell>,
    pub mousedown: bool,
}

/// A toroidal board of cells in row-major order: the cell at `(row, col)`
/// lives at index `row * width + col`. `prevcells` holds the board as it
/// stood before the most recent generation advance or reseed, and
/// `mousedown` lets a host mark a multi-step gesture as in progress.
pub struct Universe {
    width: u32,
    height: u32,
    cells: Vec<Cell>,
    prevcells: Vec<Cell>,
    mousedown: bool,
}

impl View for Universe {
    type V = UniverseView;

    closed spec fn view(&self) -> UniverseView {
        UniverseView {
            width: self.width as int,
            height: self.height as int,
            cells: self.cells@,
            prevcells: self.prevcells@,
            mousedown: self.mousedown,
        }
    }
}

impl Universe {
    /// The board holds exactly one cell per position, and a position index
    /// always fits the 32-bit arithmetic of the lookup path.
    pub open spec fn well_formed(&self) -> bool {
        &&& 0 <= self@.width <= u32::MAX
        &&& 0 <= self@.height <= u32::MAX
        &&& self@.width * self@.height <= u32::MAX
        &&& self@.cells.len() == self@.width * self@.height
    }

    /// Columns per row.
    pub fn width(&self) -> (w: u32)
        ensures
            w == self@.width,
    {
        self.width
    }

    /// Number of rows.
    pub fn height(&self) -> (h: u32)
        ensures
            h == self@.height,
    {
        self.height
    }

    /// The linear index of `(row, column)`, for a host that reads the board
    /// buffer directly. Coordinates must already be validated.
    pub fn get_cell_index(&self, row: u32, column: u32) -> (idx: u32)
        requires
            self.well_formed(),
            row < self@.height,
            column < self@.width,
        ensures
            idx == row * self@.width + column,
    {
        proof {
            lemma_index_in_bounds(row as int, column as int, self@.width, self@.height);
        }
        row * self.width + column
    }

    /// The linear index of `(row, column)` as a cursor into the cell buffer.
    fn get_index(&self, row: u32, column: u32) -> (idx: usize)
        requires
            self.well_formed(),
            row < self@.height,
            column < self@.width,
        ensures
            idx == row * self@.width + column,
            idx < self@.cells.len(),
    {
        proof {
            lemma_index_in_bounds(row as int, column as int, self@.width, self@.height);
        }
        (row * self.width + column) as usize
    }

    /// The current board, one cell per position in row-major order, exactly
    /// `width * height` long. The view is read-only; the grid alone mutates
    /// its cells.
    pub fn cells(&self) -> (r: &[Cell])
        requires
            self.well_formed(),
        ensures
            r@ == self@.cells,
            r@.len() == self@.width * self@.height,
    {
        self.cells.as_slice()
    }

    /// The board as it stood before the most recent generation advance or
    /// reseed, in the same layout as [`Universe::cells`].
    pub fn prevcells(&self) -> (r: &[Cell])
        ensures
            r@ == self@.prevcells,
    {
        self.prevcells.as_slice()
    }

    /// The current board; the same view as [`Universe::cells`].
    pub fn get_cells(&self) -> (r: &[Cell])
        requires
            self.well_formed(),
        ensures
            r@ == self@.cells,
            r@.len() == self@.width * self@.height,
    {
        self.cells.as_slice()
    }

    /// Whether a host has marked a multi-step gesture as in progress.
    pub fn is_mousedown(&self) -> (b: bool)
        ensures
            b == self@.mousedown,
    {
        self.mousedown
    }

    /// Record or clear the multi-step-gesture mark. Nothing else changes.
    pub fn set_mousedown_value(&mut self, valu: bool)
        ensures
            final(self)@.mousedown == valu,
            final(self)@.width == old(self)@.width,
            final(self)@.height == old(self)@.height,
            final(self)@.cells == old(self)@.cells,
            final(self)@.prevcells == old(self)@.prevcells,
    {
        self.mousedown = valu;
    }

    /// Set the number of columns and discard the pattern: the board is
    /// rebuilt at the new size with every cell `Dead`. The previous-
    /// generation snapshot is left as it was.
    pub fn set_width(&mut self, width: u32)
        requires
            width * old(self)@.height <= u32::MAX,
        ensures
            final(self).well_formed(),
            final(self)@.width == width,
            final(self)@.height == old(self)@.height,
            final(self)@.cells.len() == width * old(self)@.height,
            forall|i: int| 0 <= i < final(self)@.cells.len() ==> final(self)@.cells[i]
                == Cell::Dead,
            final(self)@.prevcells == old(self)@.prevcells,
            final(self)@.mousedown == old(self)@.mousedown,
    {
        self.width = width;
        let count = (width * self.height) as usize;
        self.cells = dead_cells(count);
    }

    /// Set the number of rows and discard the pattern: the board is rebuilt
    /// at the new size with every cell `Dead`. The previous-generation
    /// snapshot is left as it was.
    pub fn set_height(&mut self, height: u32)
        requires
            old(self)@.width * height <= u32::MAX,
        ensures
            final(self).well_formed(),
            final(self)@.width == old(self)@.width,
            final(self)@.height == height,
            final(self)@.cells.len() == old(self)@.width * height,
            forall|i: int| 0 <= i < final(self)@.cells.len() ==> final(self)@.cells[i]
                == Cell::Dead,
            final(self)@.prevcells == old(self)@.prevcells,
            final(self)@.mousedown == old(self)@.mousedown,
    {
        self.height = height;
        let count = (self.width * height) as usize;
        self.cells = dead_cells(count);
    }

    /// How many of the eight toroidal neighbors of `(row, col)` are alive.
    /// The ring positions are precomputed with comparisons instead of
    /// modulus, which [`crate::rules::lemma_census_variants_agree`] shows counts
    /// the same cells.
    #[verifier::rlimit(50)]
    pub fn live_neighbor_count(&self, row: u32, col: u32) -> (count: u8)
        requires
            self.well_formed(),
            row < self@.height,
            col < self@.width,
        ensures
            count == neighbor_count(self@.cells, self@.width, self@.height, row as int, col as int),
    {
        let up = if row == 0 {
            self.height - 1
        } else {
            row - 1
        };
        let down = if row == self.height - 1 {
            0
        } else {
            row + 1
        };
        let left = if col == 0 {
            self.width - 1
        } else {
            col - 1
        };
        let right = if col == self.width - 1 {
            0
        } else {
            col + 1
        };

        let c1: u8 = if self.cells[self.get_index(up, left)] == Cell::Alive { 1 } else { 0 };
        let c2: u8 = if self.cells[self.get_index(up, col)] == Cell::Alive { 1 } else { 0 };
        let c3: u8 = if self.cells[self.get_index(up, right)] == Cell::Alive { 1 } else { 0 };
        let c4: u8 = if self.cells[self.get_index(row, left)] == Cell::Alive { 1 } else { 0 };
        let c5: u8 = if self.cells[self.get_index(row, right)] == Cell::Alive { 1 } else { 0 };
        let c6: u8 = if self.cells[self.get_index(down, left)] == Cell::Alive { 1 } else { 0 };
        let c7: u8 = if self.cells[self.get_index(down, col)] == Cell::Alive { 1 } else { 0 };
        let c8: u8 = if self.cells[self.get_index(down, right)] == Cell::Alive { 1 } else { 0 };

        c1 + c2 + c3 + c4 + c5 + c6 + c7 + c8
    }

    /// Advance the whole board one generation: snapshot the current cells
    /// into the previous-generation buffer, then judge every position by its
    /// census of the pre-transition state and commit the new board in one
    /// assignment. The result is a pure function of the old board and the
    /// dimensions.
    pub fn tick(&mut self)
        requires
            old(self).well_formed(),
        ensures
            final(self).well_formed(),
            final(self)@.cells == step(old(self)@.cells, old(self)@.width, old(self)@.height),
            final(self)@.prevcells == old(self)@.cells,
            final(self)@.width == old(self)@.width,
            final(self)@.height == old(self)@.height,
            final(self)@.mousedown == old(self)@.mousedown,
    {
        let ghost orig = self@;
        let ghost target = step(orig.cells, orig.width, orig.height);

        let mut next = clone_cells(&self.cells);
        self.prevcells = clone_cells(&self.cells);

        let width = self.width;
        let height = self.height;
        let mut row: u32 = 0;
        while row < height
            invariant
                self.well_formed(),
                self@.width == width,
                self@.height == height,
                self@.cells == orig.cells,
                orig.width == width,
                orig.height == height,
                next@.len() == orig.cells.len(),
                orig.cells.len() == orig.width * orig.height,
                target == step(orig.cells, orig.width, orig.height),
                row <= height,
                forall|i: int| 0 <= i < row * width ==> next@[i] == target[i],
            decreases height - row,
        {
            let mut col: u32 = 0;
            while col < width
                invariant
                    self.well_formed(),
                    self@.width == width,
                    self@.height == height,
                    self@.cells == orig.cells,
                    orig.width == width,
                    orig.height == height,
                    next@.len() == orig.cells.len(),
                    orig.cells.len() == orig.width * orig.height,
                    target == step(orig.cells, orig.width, orig.height),
                    row < height,
                    col <= width,
                    forall|i: int| 0 <= i < row * width + col ==> next@[i] == target[i],
                decreases width - col,
            {
                let idx = self.get_index(row, col);
                let cell = self.cells[idx];
                let neighbors = self.live_neighbor_count(row, col);
                let next_state = apply_rule(cell, neighbors);
                proof {
                    lemma_fundamental_div_mod_converse(
                        idx as int,
                        width as int,
                        row as int,
                        col as int,
                    );
                    assert(target[idx as int] == next_cell(
                        orig.cells[idx as int],
                        neighbor_count(orig.cells, orig.width, orig.height, row as int, col as int),
                    ));
                }
                next.set(idx, next_state);
                col = col + 1;
            }
            proof {
                assert((row + 1) * width == row * width + width) by (nonlinear_arith);
            }
            row = row + 1;
        }
        proof {
            assert(height * width == width * height) by (nonlinear_arith);
            assert(next@ =~= target);
        }
        self.cells = next;
    }

    /// Flip the single cell at `(row, column)`. Coordinates must already be
    /// validated by the host.
    pub fn toggle_cell(&mut self, row: u32, column: u32)
        requires
            old(self).well_formed(),
            row < old(self)@.height,
            column < old(self)@.width,
        ensures
            final(self).well_formed(),
            final(self)@.cells == toggled(old(self)@.cells, row * old(self)@.width + column),
            final(self)@.width == old(self)@.width,
            final(self)@.height == old(self)@.height,
            final(self)@.prevcells == old(self)@.prevcells,
            final(self)@.mousedown == old(self)@.mousedown,
    {
        let idx = self.get_index(row, column);
        let mut cell = self.cells[idx];
        cell.toggle();
        self.cells.set(idx, cell);
    }

    /// Build the default board: `DEFAULT_SIDE` columns and rows, seeded
    /// sparsely at random from `seed`, with the previous-generation snapshot
    /// set to the exact inverse of the board so the first render shows every
    /// cell as changed. The host chooses the seed, typically from a clock,
    /// so repeated runs differ; which cells start alive is not specified.
    pub fn new(seed: u64) -> (u: Universe)
        ensures
            u.well_formed(),
            u@.width == DEFAULT_SIDE,
            u@.height == DEFAULT_SIDE,
            u@.prevcells.len() == u@.cells.len(),
            forall|i: int| 0 <= i < u@.cells.len() ==> u@.prevcells[i] == flip(u@.cells[i]),
            u@.mousedown == false,
    {
        quad_rand::srand(seed);

        let width: u32 = DEFAULT_SIDE;
        let height: u32 = DEFAULT_SIDE;
        let pattern = InitialPattern::Random5050;
        let cells = match generate_cells(width, height, pattern) {
            Ok(cells) => cells,
            Err(_) => {
                proof {
                    assert(false);
                }
                Vec::new()
            },
        };
        let prevcells = invert_cells(&cells);
        let mousedown = false;

        Universe { width, height, cells, prevcells, mousedown }
    }

    /// Throw the current pattern away and reseed the board at its present
    /// dimensions, after snapshotting it so a host can render the outgoing
    /// pattern once. Unlike [`Universe::tick`] this applies no rule. An
    /// unsupported pattern is refused and the grid is left untouched.
    pub fn reset_board(&mut self, pattern: InitialPattern) -> (r: Result<(), GridError>)
        requires
            old(self).well_formed(),
        ensures
            final(self).well_formed(),
            final(self)@.width == old(self)@.width,
            final(self)@.height == old(self)@.height,
            final(self)@.mousedown == old(self)@.mousedown,
            r is Ok <==> pattern == InitialPattern::Random5050,
            r is Ok ==> final(self)@.prevcells == old(self)@.cells,
            r is Err ==> r == Result::<(), GridError>::Err(GridError::UnsupportedPattern)
                && final(self)@.cells == old(self)@.cells && final(self)@.prevcells == old(
                self,
            )@.prevcells,
    {
        let width = self.width;
        let height = self.height;
        match generate_cells(width, height, pattern) {
            Ok(cells) => {
                self.prevcells = clone_cells(&self.cells);
                self.cells = cells;
                Ok(())
            },
            Err(e) => Err(e),
        }
    }

    /// Set every listed `(row, col)` position to `Alive`, leaving all other
    /// cells as they were. All coordinates must already be validated; the
    /// order of application is irrelevant.
    pub fn set_cells(&mut self, cells: &[(u32, u32)])
        requires
            old(self).well_formed(),
            forall|j: int| 0 <= j < cells@.len() ==> cells@[j].0 < old(self)@.height
                && cells@[j].1 < old(self)@.width,
        ensures
            final(self).well_formed(),
            final(self)@.width == old(self)@.width,
            final(self)@.height == old(self)@.height,
            final(self)@.prevcells == old(self)@.prevcells,
            final(self)@.mousedown == old(self)@.mousedown,
            final(self)@.cells.len() == old(self)@.cells.len(),
            forall|k: int| 0 <= k < old(self)@.cells.len() ==> final(self)@.cells[k] == (
            if hits_position(cells@, old(self)@.width, cells@.len() as int, k) {
                Cell::Alive
            } else {
                old(self)@.cells[k]
            }),
    {
        let ghost orig = self@;
        let ghost coords = cells@;
        let n = cells.len();
        let mut j: usize = 0;
        while j < n
            invariant
                self.well_formed(),
                self@.width == orig.width,
                self@.height == orig.height,
                self@.prevcells == orig.prevcells,
                self@.mousedown == orig.mousedown,
                self@.cells.len() == orig.cells.len(),
                j <= n,
                n == coords.len(),
                coords == cells@,
                forall|l: int| 0 <= l < coords.len() ==> coords[l].0 < orig.height
                    && coords[l].1 < orig.width,
                forall|k: int| 0 <= k < orig.cells.len() ==> self@.cells[k] == (
                if hits_position(coords, orig.width, j as int, k) {
                    Cell::Alive
                } else {
                    orig.cells[k]
                }),
            decreases n - j,
        {
            let (row, col) = cells[j];
            let idx = self.get_index(row, col);
            self.cells.set(idx, Cell::Alive);
            proof {
                assert forall|k: int| 0 <= k < orig.cells.len() implies self@.cells[k] == (
                if hits_position(coords, orig.width, j + 1, k) {
                    Cell::Alive
                } else {
                    orig.cells[k]
                }) by {
                    if k == idx {
                        assert(hits_position(coords, orig.width, j + 1, k)) by {
                            assert(coords[j as int].0 * orig.width + coords[j as int].1 == k);
                        }
                    } else {
                        if hits_position(coords, orig.width, j + 1, k) {
                            let l = choose|l: int|
                                0 <= l < j + 1 && coords[l].0 * orig.width + coords[l].1 == k;
                            assert(l < j);
                            assert(hits_position(coords, orig.width, j as int, k));
                        }
                    }
                }
            }
            j = j + 1;
        }
    }

    /// Set the single cell at `(row, column)` to `valu`, unconditionally.
    pub fn set_cell_value(&mut self, row: u32, column: u32, valu: Cell)
        requires
            old(self).well_formed(),
            row < old(self)@.height,
            column < old(self)@.width,
        ensures
            final(self).well_formed(),
            final(self)@.cells == old(self)@.cells.update(
                row * old(self)@.width + column,
                valu,
            ),
            final(self)@.width == old(self)@.width,
            final(self)@.height == old(self)@.height,
            final(self)@.prevcells == old(self)@.prevcells,
            final(self)@.mousedown == old(self)@.mousedown,
    {
        let idx = self.get_index(row, column);
        let mut cell = self.cells[idx];
        cell.set_cell(valu);
        self.cells.set(idx, cell);
    }
}

/// Whether one of the first `upto` listed coordinates names the linear
/// position `k` of a board `width` columns wide.
pub open spec fn hits_position(coords: Seq<(u32, u32)>, width: int, upto: int, k: int) -> bool {
    exists|j: int| 0 <= j < upto && coords[j].0 * width + coords[j].1 == k
}

/// The random-sparse seeding rule for one cell: of the values a draw can
/// take, `0` alone — one of `SPARSE_DENOMINATOR` equally likely outcomes —
/// makes the cell start alive.
fn cell_from_draw(draw: u32) -> (c: Cell)
    ensures
        c == Cell::Alive <==> draw == 0,
{
    if draw == 0 {
        Cell::Alive
    } else {
        Cell::Dead
    }
}

/// A fresh board of `width * height` cells populated under `pattern`:
/// random sparse seeding draws one value per cell and seats it under
/// `cell_from_draw`. The one fixed pattern has no arrangement in this
/// build, so asking for it fails rather than silently seeding at random.
fn generate_cells(width: u32, height: u32, pattern: InitialPattern) -> (r: Result<
    Vec<Cell>,
    GridError,
>)
    requires
        width * height <= u32::MAX,
    ensures
        r is Ok <==> pattern == InitialPattern::Random5050,
        (match r {
            Ok(cells) => cells@.len() == width * height,
            Err(e) => e == GridError::UnsupportedPattern,
        }),
{
    match pattern {
        InitialPattern::Complex1 => Err(GridError::UnsupportedPattern),
        InitialPattern::Random5050 => {
            let count = (width * height) as usize;
            let mut cells: Vec<Cell> = Vec::new();
            while cells.len() < count
                invariant
                    cells@.len() <= count,
                decreases count - cells@.len(),
            {
                let draw = gen_range_u32(0, SPARSE_DENOMINATOR);
                cells.push(cell_from_draw(draw));
            }
            Ok(cells)
        },
    }
}

/// The cell-for-cell inverse of a board buffer.
fn invert_cells(cells: &Vec<Cell>) -> (r: Vec<Cell>)
    ensures
        r@.len() == cells@.len(),
        forall|i: int| 0 <= i < cells@.len() ==> r@[i] == flip(cells@[i]),
{
    let count = cells.len();
    let mut inverted: Vec<Cell> = Vec::new();
    while inverted.len() < count
        invariant
            inverted@.len() <= count,
            count == cells@.len(),
            forall|i: int| 0 <= i < inverted@.len() ==> inverted@[i] == flip(cells@[i]),
        decreases count - inverted@.len(),
    {
        let i = inverted.len();
        let cell = if cells[i] == Cell::Alive {
            Cell::Dead
        } else {
            Cell::Alive
        };
        inverted.push(cell);
    }
    inverted
}

/// The birth/survival rule for one cell, in the stated order of priority:
/// underpopulation, stability, overpopulation, reproduction, otherwise
/// unchanged.
fn apply_rule(cell: Cell, neighbors: u8) -> (next: Cell)
    ensures
        next == next_cell(cell, neighbors as int),
{
    let alive = cell == Cell::Alive;
    if alive && neighbors < 2 {
        Cell::Dead
    } else if alive && (neighbors == 2 || neighbors == 3) {
        Cell::Alive
    } else if alive && neighbors > 3 {
        Cell::Dead
    } else if !alive && neighbors == 3 {
        Cell::Alive
    } else {
        cell
    }
}

/// An element-for-element copy of a board buffer.
fn clone_cells(cells: &Vec<Cell>) -> (r: Vec<Cell>)
    ensures
        r@ == cells@,
{
    let r = cells.clone();
    proof {
        assert(r@ =~= cells@);
    }
    r
}

/// A fresh all-`Dead` board of `count` cells.
fn dead_cells(count: usize) -> (r: Vec<Cell>)
    ensures
        r@.len() == count,
        forall|i: int| 0 <= i < count ==> r@[i] == Cell::Dead,
{
    let mut cells: Vec<Cell> = Vec::new();
    while cells.len() < count
        invariant
            cells@.len() <= count,
            forall|i: int| 0 <= i < cells@.len() ==> cells@[i] == Cell::Dead,
        decreases count - cells@.len(),
    {
        cells.push(Cell::Dead);
    }
    cells
}

/// A row-major index stays below the cell count and inside 32 bits.
proof fn lemma_index_in_bounds(row: int, col: int, width: int, height: int)
    requires
        0 <= row < height,
        0 <= col < width,
    ensures
        row * width + col < height * width,
        row * width + col < width * height,
{
    assert(row * width + col < height * width) by (nonlinear_arith)
        requires
            0 <= row,
            0 <= col,
            row < height,
            col < width,
    ;
    assert(height * width == width * height) by (nonlinear_arith);
}

} // verus!
