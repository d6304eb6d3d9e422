use vstd::prelude::*;
use vstd::arithmetic::div_mod::{lemma_fundamental_div_mod, lemma_fundamental_div_mod_converse, lemma_multiply_divide_lt};
use crate::cell::Cell;

verus! {

/// Why a coordinate-taking operation refused its input.
#[derive(Clone, Copy, Debug, PartialEq, Eq, Structural)]
pub enum GridError {
    /// The coordinate lies outside the grid.
    OutOfBounds,
    /// A seed point lies outside the grid; the point is skipped.
    InvalidSeed,
}

/// The mathematical grid: `width * height` cells in row-major order, the
/// cell at `(x, y)` standing at index `x + y * width`.
pub struct GridModel {
    pub width: nat,
    pub height: nat,
    pub cells: Seq<Cell>,
}

impl GridModel {
    /// Exactly one cell per coordinate.
    pub open spec fn wf(self) -> bool {
        self.cells.len() == self.width * self.height
    }

    /// Whether `(x, y)` names a cell of the grid. There is no wraparound.
    pub open spec fn in_bounds(self, x: int, y: int) -> bool {
        0 <= x < self.width && 0 <= y < self.height
    }

    /// The row-major index of `(x, y)`.
    pub open spec fn index_of(self, x: int, y: int) -> int {
        x + y * self.width
    }

    /// The cell at `(x, y)`; meaningful only inside the grid.
    pub open spec fn at(self, x: int, y: int) -> Cell
        recommends
            self.in_bounds(x, y),
    {
        self.cells[self.index_of(x, y)]
    }

    /// The grid with the cell at `(x, y)` replaced by `cell`.
    pub open spec fn set(self, x: int, y: int, cell: Cell) -> GridModel
        recommends
            self.in_bounds(x, y),
    {
        GridModel { cells: self.cells.update(self.index_of(x, y), cell), ..self }
    }

    /// The grid of the given dimensions in which every cell is `Empty`.
    pub open spec fn blank(width: nat, height: nat) -> GridModel {
        GridModel { width, height, cells: Seq::new(width * height, |i: int| Cell::Empty) }
    }

    /// Whether every cell is `Empty`.
    pub open spec fn all_empty(self) -> bool {
        forall|x: int, y: int| self.in_bounds(x, y) ==> #[trigger] self.at(x, y) == Cell::Empty
    }

    /// The entry that a row-major walk yields at position `i`.
    pub open spec fn entry(self, i: int) -> (usize, usize, Cell)
        recommends
            0 <= i < self.cells.len(),
    {
        ((i % self.width as int) as usize, (i / self.width as int) as usize, self.cells[i])
    }

    /// The row-major walk over the whole grid.
    pub open spec fn entries(self) -> Seq<(usize, usize, Cell)> {
        Seq::new(self.cells.len(), |i: int| self.entry(i))
    }
}

/// Inside a `w * h` grid the index of `(x, y)` is in range, and dividing it
/// by the width gives the coordinates back.
pub proof fn lemma_index_of_coords(w: int, h: int, x: int, y: int)
    requires
        0 <= x < w,
        0 <= y < h,
    ensures
        0 <= x + y * w < w * h,
        (x + y * w) % w == x,
        (x + y * w) / w == y,
{
    assert(0 <= y * w && y * w + w <= w * h) by (nonlinear_arith)
        requires
            0 <= y,
            y + 1 <= h,
            0 < w,
    ;
    lemma_fundamental_div_mod_converse(x + y * w, w, y, x);
}

/// Every index of a `w * h` grid is the index of exactly the coordinates
/// `(i % w, i / w)`, which lie inside the grid.
pub proof fn lemma_coords_of_index(w: int, h: int, i: int)
    requires
        0 <= w,
        0 <= h,
        0 <= i < w * h,
    ensures
        0 < w,
        0 <= i % w < w,
        0 <= i / w < h,
        i == i % w + (i / w) * w,
{
    assert(0 < w) by (nonlinear_arith)
        requires
            0 <= w,
            0 <= h,
            0 <= i < w * h,
    ;
    lemma_fundamental_div_mod(i, w);
    lemma_multiply_divide_lt(i, w, h);
    assert(0 <= i / w) by (nonlinear_arith)
        requires
            0 <= i,
            0 < w,
    ;
    assert(w * (i / w) == (i / w) * w) by (nonlinear_arith);
}

/// The blank grid is well formed and every cell of it is `Empty`.
pub proof fn lemma_blank_is_empty(width: nat, height: nat)
    ensures
        GridModel::blank(width, height).wf(),
        GridModel::blank(width, height).all_empty(),
{
    let g = GridModel::blank(width, height);
    assert forall|x: int, y: int| g.in_bounds(x, y) implies #[trigger] g.at(x, y) == Cell::Empty by {
        lemma_index_of_coords(width as int, height as int, x, y);
    }
}

/// Replacing a cell changes that cell and no other: inside the grid, the
/// cell at `(a, b)` of `g.set(x, y, cell)` is `cell` if `(a, b)` is `(x, y)`
/// and is the cell of `g` otherwise. The dimensions stay.
pub proof fn lemma_set_at(g: GridModel, x: int, y: int, cell: Cell, a: int, b: int)
    requires
        g.wf(),
        g.in_bounds(x, y),
        g.in_bounds(a, b),
    ensures
        g.set(x, y, cell).wf(),
        g.set(x, y, cell).width == g.width,
        g.set(x, y, cell).height == g.height,
        g.set(x, y, cell).at(a, b) == (if a == x && b == y {
            cell
        } else {
            g.at(a, b)
        }),
{
    lemma_index_of_coords(g.width as int, g.height as int, x, y);
    lemma_index_of_coords(g.width as int, g.height as int, a, b);
}

/// The row-major walk meets every cell exactly once: the cell at `(x, y)`
/// is the entry at position `x + y * width`, and the walk has as many
/// entries as the grid has cells.
pub proof fn lemma_entry_of_coords(g: GridModel, x: int, y: int)
    requires
        g.wf(),
        g.in_bounds(x, y),
        g.width <= usize::MAX,
        g.height <= usize::MAX,
    ensures
        g.entries().len() == g.width * g.height,
        0 <= g.index_of(x, y) < g.entries().len(),
        g.entries()[g.index_of(x, y)] == (x as usize, y as usize, g.at(x, y)),
{
    lemma_index_of_coords(g.width as int, g.height as int, x, y);
}

/// The store of cells: a fixed `width * height` rectangle, addressed by
/// `(x, y)` with `0 <= x < width` and `0 <= y < height`. Its size never
/// changes after construction.
#[derive(Debug)]
pub struct Grid {
    width: usize,
    height: usize,
    cells: Vec<Cell>,
}

impl View for Grid {
    type V = GridModel;

    closed spec fn view(&self) -> GridModel {
        GridModel { width: self.width as nat, height: self.height as nat, cells: self.cells@ }
    }
}

impl Grid {
    /// The representation invariant, which every grid meets at all times:
    /// one stored cell per coordinate.
    #[verifier::type_invariant]
    pub open spec fn wf(&self) -> bool {
        self@.wf()
    }

    /// A grid of the given dimensions with every cell `Empty`, or `None`
    /// when the number of cells does not fit the machine's address range.
    pub fn new(width: usize, height: usize) -> (grid: Option<Grid>)
        ensures
            grid is Some <==> width * height <= usize::MAX,
            grid matches Some(g) ==> g@ == GridModel::blank(width as nat, height as nat),
    {
        match width.checked_mul(height) {
            None => None,
            Some(count) => {
                let mut cells: Vec<Cell> = Vec::new();
                let mut i: usize = 0;
                while i < count
                    invariant
                        i <= count,
                        cells@.len() == i,
                        forall|k: int| 0 <= k < i ==> cells@[k] == Cell::Empty,
                    decreases count - i,
                {
                    cells.push(Cell::Empty);
                    i = i + 1;
                }
                let g = Grid { width, height, cells };
                assert(g@.cells =~= GridModel::blank(width as nat, height as nat).cells);
                Some(g)
            },
        }
    }

    /// The number of columns.
    pub fn width(&self) -> (w: usize)
        ensures
            w == self@.width,
    {
        self.width
    }

    /// The number of rows.
    pub fn height(&self) -> (h: usize)
        ensures
            h == self@.height,
    {
        self.height
    }

    /// The dimensions as `(width, height)`.
    pub fn dimensions(&self) -> (dims: (usize, usize))
        ensures
            dims.0 == self@.width,
            dims.1 == self@.height,
    {
        (self.width, self.height)
    }

    /// Whether `(x, y)` names a cell of the grid.
    pub fn contains(&self, x: usize, y: usize) -> (inside: bool)
        ensures
            inside == self@.in_bounds(x as int, y as int),
    {
        x < self.width && y < self.height
    }

    /// The position of `(x, y)` in the row-major store.
    pub(crate) fn offset(&self, x: usize, y: usize) -> (i: usize)
        requires
            self@.in_bounds(x as int, y as int),
        ensures
            i == self@.index_of(x as int, y as int),
            0 <= i < self@.cells.len(),
    {
        proof {
            use_type_invariant(self);
            lemma_index_of_coords(self.width as int, self.height as int, x as int, y as int);
            assert(self.cells.len() == self.cells@.len());
        }
        x + y * self.width
    }

    /// The cell at `(x, y)`, or `OutOfBounds` when `x >= width` or
    /// `y >= height`.
    pub fn get(&self, x: usize, y: usize) -> (cell: Result<Cell, GridError>)
        ensures
            self@.in_bounds(x as int, y as int) ==> cell == Ok::<Cell, GridError>(
                self@.at(x as int, y as int),
            ),
            !self@.in_bounds(x as int, y as int) ==> cell == Err::<Cell, GridError>(
                GridError::OutOfBounds,
            ),
    {
        if x < self.width && y < self.height {
            let i = self.offset(x, y);
            Ok(self.cells[i])
        } else {
            Err(GridError::OutOfBounds)
        }
    }

    /// Replaces the cell at `(x, y)`, or returns `OutOfBounds` and leaves
    /// the grid as it was when `x >= width` or `y >= height`.
    pub fn set(&mut self, x: usize, y: usize, cell: Cell) -> (done: Result<(), GridError>)
        ensures
            old(self)@.in_bounds(x as int, y as int) ==> done == Ok::<(), GridError>(())
                && final(self)@ == old(self)@.set(x as int, y as int, cell),
            !old(self)@.in_bounds(x as int, y as int) ==> done == Err::<(), GridError>(
                GridError::OutOfBounds,
            ) && final(self)@ == old(self)@,
    {
        if x < self.width && y < self.height {
            proof {
                use_type_invariant(&*self);
            }
            let i = self.offset(x, y);
            self.cells[i] = cell;
            Ok(())
        } else {
            Err(GridError::OutOfBounds)
        }
    }

    /// The number of cells, `width * height`.
    pub fn cell_count(&self) -> (count: usize)
        ensures
            count == self@.cells.len(),
            count == self@.width * self@.height,
    {
        proof {
            use_type_invariant(self);
        }
        self.cells.len()
    }

    /// The cell at row-major position `i`.
    pub(crate) fn cell(&self, i: usize) -> (cell: Cell)
        requires
            i < self@.cells.len(),
        ensures
            cell == self@.cells[i as int],
    {
        self.cells[i]
    }

    /// Replaces the cell at row-major position `i`.
    pub(crate) fn put(&mut self, i: usize, cell: Cell)
        requires
            i < old(self)@.cells.len(),
        ensures
            final(self)@ == (GridModel {
                cells: old(self)@.cells.update(i as int, cell),
                ..old(self)@
            }),
    {
        proof {
            use_type_invariant(&*self);
        }
        self.cells[i] = cell;
    }

    /// An independent copy of the grid as it is now.
    pub fn snapshot(&self) -> (copy: Grid)
        ensures
            copy@ == self@,
    {
        let mut cells: Vec<Cell> = Vec::new();
        let mut i: usize = 0;
        while i < self.cells.len()
            invariant
                i <= self.cells@.len(),
                cells@ == self.cells@.take(i as int),
            decreases self.cells@.len() - i,
        {
            cells.push(self.cells[i]);
            assert(self.cells@.take(i + 1) =~= self.cells@.take(i as int).push(self.cells@[i as int]));
            i = i + 1;
        }
        proof {
            use_type_invariant(self);
            assert(self.cells@.take(i as int) =~= self.cells@);
        }
        Grid { width: self.width, height: self.height, cells }
    }

    /// Sets every cell to `Empty`; the dimensions stay.
    pub fn clear(&mut self)
        ensures
            final(self)@ == GridModel::blank(old(self)@.width, old(self)@.height),
    {
        proof {
            use_type_invariant(&*self);
        }
        let mut i: usize = 0;
        while i < self.cells.len()
            invariant
                self.wf(),
                i <= self.cells@.len(),
                self.width == old(self).width,
                self.height == old(self).height,
                self.cells@.len() == old(self).cells@.len(),
                forall|k: int| 0 <= k < i ==> self.cells@[k] == Cell::Empty,
            decreases self.cells@.len() - i,
        {
            self.cells[i] = Cell::Empty;
            i = i + 1;
        }
        assert(self@.cells =~= GridModel::blank(old(self)@.width, old(self)@.height).cells);
    }

    /// Every cell with its coordinates, as `(x, y, cell)` in row-major
    /// order: all of row 0 from left to right, then row 1, and so on.
    pub fn iter(&self) -> (entries: Vec<(usize, usize, Cell)>)
        ensures
            entries@ == self@.entries(),
    {
        proof {
            use_type_invariant(self);
        }
        let mut entries: Vec<(usize, usize, Cell)> = Vec::new();
        let mut i: usize = 0;
        while i < self.cells.len()
            invariant
                self.wf(),
                i <= self.cells@.len(),
                entries@.len() == i,
                forall|k: int| 0 <= k < i ==> entries@[k] == self@.entry(k),
            decreases self.cells@.len() - i,
        {
            proof {
                lemma_coords_of_index(self.width as int, self.height as int, i as int);
            }
            entries.push((i % self.width, i / self.width, self.cells[i]));
            i = i + 1;
        }
        assert(entries@ =~= self@.entries());
        entries
    }
}

} // verus!
