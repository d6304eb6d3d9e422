use vstd::prelude::*;
use crate::cell::Cell;
use crate::grid::{lemma_coords_of_index, lemma_index_of_coords, Grid, GridError, GridModel};

verus! {

/// The transition of one cell, given how many of its neighbours are alive:
/// a live cell with fewer than two or more than three live neighbours dies,
/// a cell that is not alive with exactly three live neighbours is born, and
/// every other cell stays as it is. A `Dead` cell that is not reborn stays
/// `Dead`: it does not decay to `Empty`.
pub open spec fn rule(cell: Cell, neighbors: nat) -> Cell {
    if cell is Alive {
        if neighbors < 2 || neighbors > 3 {
            Cell::Dead
        } else {
            Cell::Alive
        }
    } else if neighbors == 3 {
        Cell::Alive
    } else {
        cell
    }
}

impl GridModel {
    /// Whether `(x, y)` holds a live cell. A coordinate outside the grid
    /// holds none: the edges are bounded, not wrapped.
    pub open spec fn live(self, x: int, y: int) -> bool {
        self.in_bounds(x, y) && self.at(x, y).live()
    }

    /// 1 if `(x, y)` holds a live cell, else 0.
    pub open spec fn live_count(self, x: int, y: int) -> nat {
        if self.live(x, y) {
            1
        } else {
            0
        }
    }

    /// 1 if `(x, y)` lies inside the grid, else 0.
    pub open spec fn slot_count(self, x: int, y: int) -> nat {
        if self.in_bounds(x, y) {
            1
        } else {
            0
        }
    }

    /// How many of the eight cells around `(x, y)` are alive. Only `Alive`
    /// counts; `Dead` and `Empty` do not.
    pub open spec fn live_neighbors(self, x: int, y: int) -> nat {
        self.live_count(x - 1, y - 1) + self.live_count(x, y - 1) + self.live_count(x + 1, y - 1)
            + self.live_count(x - 1, y) + self.live_count(x + 1, y) + self.live_count(x - 1, y + 1)
            + self.live_count(x, y + 1) + self.live_count(x + 1, y + 1)
    }

    /// How many of the eight coordinates around `(x, y)` lie inside the
    /// grid, and so are looked at when the neighbours are counted.
    pub open spec fn neighbor_slots(self, x: int, y: int) -> nat {
        self.slot_count(x - 1, y - 1) + self.slot_count(x, y - 1) + self.slot_count(x + 1, y - 1)
            + self.slot_count(x - 1, y) + self.slot_count(x + 1, y) + self.slot_count(x - 1, y + 1)
            + self.slot_count(x, y + 1) + self.slot_count(x + 1, y + 1)
    }

    /// The state of `(x, y)` in the next generation.
    pub open spec fn next_cell(self, x: int, y: int) -> Cell
        recommends
            self.in_bounds(x, y),
    {
        rule(self.at(x, y), self.live_neighbors(x, y))
    }

    /// The next generation: every cell makes its transition at once, each
    /// from the neighbour counts of this generation.
    pub open spec fn advance(self) -> GridModel {
        GridModel {
            width: self.width,
            height: self.height,
            cells: Seq::new(
                self.cells.len(),
                |i: int| self.next_cell(i % self.width as int, i / self.width as int),
            ),
        }
    }

    /// The grid after `n` generations.
    pub open spec fn advance_by(self, n: nat) -> GridModel
        decreases n,
    {
        if n == 0 {
            self
        } else {
            self.advance().advance_by((n - 1) as nat)
        }
    }
}

/// Advancing keeps the dimensions, and inside the grid the cell at `(x, y)`
/// of the next generation is the transition of the cell at `(x, y)`.
pub proof fn lemma_advance_at(g: GridModel, x: int, y: int)
    requires
        g.wf(),
        g.in_bounds(x, y),
    ensures
        g.advance().wf(),
        g.advance().in_bounds(x, y),
        g.advance().at(x, y) == g.next_cell(x, y),
{
    lemma_index_of_coords(g.width as int, g.height as int, x, y);
}

/// Of the eight coordinates around a cell only those inside the grid are
/// looked at, and only those can hold a live neighbour.
pub proof fn lemma_neighbors_bounded(g: GridModel, x: int, y: int)
    ensures
        g.live_neighbors(x, y) <= g.neighbor_slots(x, y) <= 8,
{
}

/// A cell in a corner of the grid has at most three neighbours inside the
/// grid, so at most three are looked at and at most three can be alive.
pub proof fn lemma_corner_neighbors(g: GridModel, x: int, y: int)
    requires
        g.in_bounds(x, y),
        x == 0 || x == g.width - 1,
        y == 0 || y == g.height - 1,
    ensures
        g.live_neighbors(x, y) <= g.neighbor_slots(x, y) <= 3,
{
}

/// A cell on an edge of the grid has at most five neighbours inside the
/// grid.
pub proof fn lemma_edge_neighbors(g: GridModel, x: int, y: int)
    requires
        g.in_bounds(x, y),
        x == 0 || x == g.width - 1 || y == 0 || y == g.height - 1,
    ensures
        g.live_neighbors(x, y) <= g.neighbor_slots(x, y) <= 5,
{
}

/// Without a live cell nothing is born: if no cell is alive, every cell
/// keeps its state, so the next generation is the same grid.
pub proof fn lemma_no_life_stays_so(g: GridModel)
    requires
        g.wf(),
        forall|x: int, y: int| !#[trigger] g.live(x, y),
    ensures
        g.advance() == g,
{
    assert forall|i: int| 0 <= i < g.cells.len() implies g.advance().cells[i] == g.cells[i] by {
        lemma_coords_of_index(g.width as int, g.height as int, i);
        let x = i % g.width as int;
        let y = i / g.width as int;
        assert(g.index_of(x, y) == i);
        assert(!g.live(x, y));
        assert(g.live_neighbors(x, y) == 0);
    }
    assert(g.advance().cells =~= g.cells);
}

/// No spontaneous birth: the next generation of a grid in which every cell
/// is `Empty` is that same grid.
pub proof fn lemma_empty_stays_empty(g: GridModel)
    requires
        g.wf(),
        g.all_empty(),
    ensures
        g.advance() == g,
        g.advance().all_empty(),
{
    assert forall|x: int, y: int| !#[trigger] g.live(x, y) by {
        if g.in_bounds(x, y) {
            assert(g.at(x, y) == Cell::Empty);
        }
    }
    lemma_no_life_stays_so(g);
}

/// A live cell without a live neighbour is `Dead` in the next generation.
pub proof fn lemma_isolated_cell_dies(g: GridModel, x: int, y: int)
    requires
        g.wf(),
        g.in_bounds(x, y),
        g.at(x, y) == Cell::Alive,
        g.live_neighbors(x, y) == 0,
    ensures
        g.advance().at(x, y) == Cell::Dead,
{
    lemma_advance_at(g, x, y);
}

/// Advancing by `m + n` generations is advancing by `m` and then by `n`.
pub proof fn lemma_advance_by_add(g: GridModel, m: nat, n: nat)
    ensures
        g.advance_by(m + n) == g.advance_by(m).advance_by(n),
    decreases m,
{
    if m > 0 {
        lemma_advance_by_add(g.advance(), (m - 1) as nat, n);
        assert(g.advance_by(m + n) == g.advance().advance_by((m + n - 1) as nat));
    }
}

/// The transition of one cell with `neighbors` live neighbours.
pub fn next_state(cell: Cell, neighbors: u8) -> (next: Cell)
    ensures
        next == rule(cell, neighbors as nat),
{
    match cell {
        Cell::Alive => {
            if neighbors < 2 || neighbors > 3 {
                Cell::Dead
            } else {
                Cell::Alive
            }
        },
        Cell::Dead | Cell::Empty => {
            if neighbors == 3 {
                Cell::Alive
            } else {
                cell
            }
        },
    }
}

impl Grid {
    /// Whether the coordinate `(x, y)`, which may lie outside the grid,
    /// holds a live cell.
    fn live_at(&self, x: i128, y: i128) -> (live: bool)
        ensures
            live == self@.live(x as int, y as int),
    {
        let (width, height) = self.dimensions();
        if 0 <= x && x < width as i128 && 0 <= y && y < height as i128 {
            let i = self.offset(x as usize, y as usize);
            self.cell(i).is_alive()
        } else {
            false
        }
    }

    /// The number of live cells among the neighbours of `(x, y)` that lie
    /// inside the grid.
    fn count_live_neighbors(&self, x: usize, y: usize) -> (count: u8)
        ensures
            count == self@.live_neighbors(x as int, y as int),
    {
        let cx: i128 = x as i128;
        let cy: i128 = y as i128;
        let mut count: u8 = 0;
        if self.live_at(cx - 1, cy - 1) {
            count = count + 1;
        }
        if self.live_at(cx, cy - 1) {
            count = count + 1;
        }
        if self.live_at(cx + 1, cy - 1) {
            count = count + 1;
        }
        if self.live_at(cx - 1, cy) {
            count = count + 1;
        }
        if self.live_at(cx + 1, cy) {
            count = count + 1;
        }
        if self.live_at(cx - 1, cy + 1) {
            count = count + 1;
        }
        if self.live_at(cx, cy + 1) {
            count = count + 1;
        }
        if self.live_at(cx + 1, cy + 1) {
            count = count + 1;
        }
        count
    }

    /// How many of the up to eight neighbours of `(x, y)` are alive, or
    /// `OutOfBounds` when `(x, y)` is not a cell of the grid. Neighbours
    /// beyond an edge do not exist and are not counted.
    pub fn live_neighbors(&self, x: usize, y: usize) -> (count: Result<u8, GridError>)
        ensures
            self@.in_bounds(x as int, y as int) ==> (count matches Ok(n)
                && n == self@.live_neighbors(x as int, y as int)),
            !self@.in_bounds(x as int, y as int) ==> count == Err::<u8, GridError>(
                GridError::OutOfBounds,
            ),
    {
        if self.contains(x, y) {
            Ok(self.count_live_neighbors(x, y))
        } else {
            Err(GridError::OutOfBounds)
        }
    }

    /// Replaces the grid by its next generation. Every neighbour count is
    /// taken from a copy of the generation that is being left, so no cell
    /// sees the new state of another.
    pub fn advance(&mut self)
        ensures
            final(self)@ == old(self)@.advance(),
    {
        proof {
            use_type_invariant(&*self);
        }
        let before = self.snapshot();
        let width = self.width();
        let count = self.cell_count();
        let mut i: usize = 0;
        while i < count
            invariant
                before.wf(),
                before@ == old(self)@,
                width == before@.width,
                count == before@.cells.len(),
                i <= count,
                self@.width == before@.width,
                self@.height == before@.height,
                self@.cells.len() == count,
                forall|k: int|
                    0 <= k < i ==> self@.cells[k] == before@.next_cell(
                        k % width as int,
                        k / width as int,
                    ),
            decreases count - i,
        {
            proof {
                lemma_coords_of_index(before@.width as int, before@.height as int, i as int);
            }
            let x = i % width;
            let y = i / width;
            let neighbors = before.count_live_neighbors(x, y);
            let next = next_state(before.cell(i), neighbors);
            self.put(i, next);
            i = i + 1;
        }
        assert(self@.cells =~= old(self)@.advance().cells);
    }
}

} // verus!
