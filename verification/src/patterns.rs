use vstd::prelude::*;
use crate::cell::Cell;
use crate::grid::{lemma_coords_of_index, GridModel};
use crate::rules::lemma_advance_at;

verus! {

/// Whether `(a, b)` lies in the rectangle from `(x0, y0)` to `(x1, y1)`,
/// both corners included.
pub open spec fn in_rect(x0: int, y0: int, x1: int, y1: int, a: int, b: int) -> bool {
    x0 <= a <= x1 && y0 <= b <= y1
}

/// Whether `(a, b)` is one of the four cells of the 2x2 block whose corner
/// with the smallest coordinates is `(x, y)`.
pub open spec fn in_block(x: int, y: int, a: int, b: int) -> bool {
    x <= a <= x + 1 && y <= b <= y + 1
}

/// Whether `(a, b)` is one of the three cells `(x, y)`, `(x + 1, y)`,
/// `(x + 2, y)` of a horizontal row.
pub open spec fn in_row(x: int, y: int, a: int, b: int) -> bool {
    b == y && x <= a <= x + 2
}

/// Whether `(a, b)` is one of the three cells `(x, y)`, `(x, y + 1)`,
/// `(x, y + 2)` of a vertical column.
pub open spec fn in_column(x: int, y: int, a: int, b: int) -> bool {
    a == x && y <= b <= y + 2
}

impl GridModel {
    /// Among the cells of the grid that lie in the rectangle from
    /// `(x0, y0)` to `(x1, y1)`, exactly those of the block at `(x, y)` are
    /// alive.
    pub open spec fn only_block_lives(
        self,
        x: int,
        y: int,
        x0: int,
        y0: int,
        x1: int,
        y1: int,
    ) -> bool {
        forall|a: int, b: int|
            self.in_bounds(a, b) && in_rect(x0, y0, x1, y1, a, b) ==> (#[trigger] self.live(a, b)
                <==> in_block(x, y, a, b))
    }

    /// Among the cells of the grid that lie in the rectangle from
    /// `(x0, y0)` to `(x1, y1)`, exactly those of the row at `(x, y)` are
    /// alive.
    pub open spec fn only_row_lives(
        self,
        x: int,
        y: int,
        x0: int,
        y0: int,
        x1: int,
        y1: int,
    ) -> bool {
        forall|a: int, b: int|
            self.in_bounds(a, b) && in_rect(x0, y0, x1, y1, a, b) ==> (#[trigger] self.live(a, b)
                <==> in_row(x, y, a, b))
    }

    /// Among the cells of the grid that lie in the rectangle from
    /// `(x0, y0)` to `(x1, y1)`, exactly those of the column at `(x, y)`
    /// are alive.
    pub open spec fn only_column_lives(
        self,
        x: int,
        y: int,
        x0: int,
        y0: int,
        x1: int,
        y1: int,
    ) -> bool {
        forall|a: int, b: int|
            self.in_bounds(a, b) && in_rect(x0, y0, x1, y1, a, b) ==> (#[trigger] self.live(a, b)
                <==> in_column(x, y, a, b))
    }
}

/// The block is a still life wherever it has room. If, in a rectangle and
/// one cell around it, the only live cells are those of a 2x2 block, then
/// no cell of the rectangle changes in the next generation. Beyond an edge
/// of the grid there is nothing that could disturb the block, so it may
/// touch the edge.
pub proof fn lemma_block_is_still_within(
    g: GridModel,
    x: int,
    y: int,
    x0: int,
    y0: int,
    x1: int,
    y1: int,
)
    requires
        g.wf(),
        g.in_bounds(x, y),
        g.in_bounds(x + 1, y + 1),
        g.only_block_lives(x, y, x0 - 1, y0 - 1, x1 + 1, y1 + 1),
    ensures
        forall|a: int, b: int|
            g.in_bounds(a, b) && in_rect(x0, y0, x1, y1, a, b) ==> #[trigger] g.advance().at(a, b)
                == g.at(a, b),
        g.advance().only_block_lives(x, y, x0, y0, x1, y1),
{
    assert forall|a: int, b: int| g.in_bounds(a, b) && in_rect(x0, y0, x1, y1, a, b) implies (
    #[trigger] g.advance().at(a, b)) == g.at(a, b) by {
        lemma_advance_at(g, a, b);
        assert(g.live(a, b) <==> in_block(x, y, a, b));
        if in_block(x, y, a, b) {
            assert(g.live_neighbors(a, b) == 3);
        } else {
            assert(g.live_neighbors(a, b) <= 2);
        }
    }
    assert forall|a: int, b: int|
        g.advance().in_bounds(a, b) && in_rect(x0, y0, x1, y1, a, b) implies (
    #[trigger] g.advance().live(a, b) <==> in_block(x, y, a, b)) by {
        assert(g.advance().at(a, b) == g.at(a, b));
        assert(g.live(a, b) <==> in_block(x, y, a, b));
    }
}

/// The still life: a grid whose live cells are exactly a 2x2 block is its
/// own next generation.
pub proof fn lemma_block_is_still(g: GridModel, x: int, y: int)
    requires
        g.wf(),
        g.in_bounds(x, y),
        g.in_bounds(x + 1, y + 1),
        forall|a: int, b: int| g.in_bounds(a, b) ==> (#[trigger] g.live(a, b) <==> in_block(x, y, a, b)),
    ensures
        g.advance() == g,
{
    lemma_block_is_still_within(g, x, y, 0, 0, g.width - 1, g.height - 1);
    assert forall|i: int| 0 <= i < g.cells.len() implies g.advance().cells[i] == g.cells[i] by {
        lemma_coords_of_index(g.width as int, g.height as int, i);
        let a = i % g.width as int;
        let b = i / g.width as int;
        assert(g.index_of(a, b) == i);
        assert(g.advance().at(a, b) == g.at(a, b));
    }
    assert(g.advance().cells =~= g.cells);
}

/// The first half of the blinker's period. Let the cells above and below
/// the middle of the row `(x, y)`, `(x + 1, y)`, `(x + 2, y)` exist, and
/// let the cells of that row be the only live cells in a rectangle and one
/// cell around it. Then in the next generation, of the cells of the
/// rectangle, those of the column `(x + 1, y - 1)`, `(x + 1, y)`,
/// `(x + 1, y + 1)` are `Alive`, the two ends of the row are `Dead`, and
/// every other cell is as it was.
pub proof fn lemma_blinker_row_turns(
    g: GridModel,
    x: int,
    y: int,
    x0: int,
    y0: int,
    x1: int,
    y1: int,
)
    requires
        g.wf(),
        g.in_bounds(x, y - 1),
        g.in_bounds(x + 2, y + 1),
        g.only_row_lives(x, y, x0 - 1, y0 - 1, x1 + 1, y1 + 1),
    ensures
        g.advance().wf(),
        forall|a: int, b: int|
            g.in_bounds(a, b) && in_rect(x0, y0, x1, y1, a, b) ==> #[trigger] g.advance().at(a, b)
                == (if in_column(x + 1, y - 1, a, b) {
                Cell::Alive
            } else if in_row(x, y, a, b) {
                Cell::Dead
            } else {
                g.at(a, b)
            }),
        g.advance().only_column_lives(x + 1, y - 1, x0, y0, x1, y1),
{
    lemma_advance_at(g, x, y);
    assert forall|a: int, b: int| g.in_bounds(a, b) && in_rect(x0, y0, x1, y1, a, b) implies (
    #[trigger] g.advance().at(a, b)) == (if in_column(x + 1, y - 1, a, b) {
        Cell::Alive
    } else if in_row(x, y, a, b) {
        Cell::Dead
    } else {
        g.at(a, b)
    }) by {
        lemma_advance_at(g, a, b);
        assert(g.live(a, b) <==> in_row(x, y, a, b));
        if in_column(x + 1, y - 1, a, b) {
            if b == y {
                assert(g.live_neighbors(a, b) == 2);
            } else {
                assert(g.live_neighbors(a, b) == 3);
            }
        } else if in_row(x, y, a, b) {
            assert(g.live_neighbors(a, b) == 1);
        } else {
            assert(g.live_neighbors(a, b) <= 2);
        }
    }
    assert forall|a: int, b: int|
        g.advance().in_bounds(a, b) && in_rect(x0, y0, x1, y1, a, b) implies (
    #[trigger] g.advance().live(a, b) <==> in_column(x + 1, y - 1, a, b)) by {
        assert(g.live(a, b) <==> in_row(x, y, a, b));
        assert(g.advance().at(a, b).live() <==> in_column(x + 1, y - 1, a, b));
    }
}

/// The second half of the blinker's period. Let the cells left and right of
/// the middle of the column `(x, y)`, `(x, y + 1)`, `(x, y + 2)` exist, and
/// let the cells of that column be the only live cells in a rectangle and
/// one cell around it. Then in the next generation, of the cells of the
/// rectangle, those of the row `(x - 1, y + 1)`, `(x, y + 1)`,
/// `(x + 1, y + 1)` are `Alive`, the two ends of the column are `Dead`, and
/// every other cell is as it was.
pub proof fn lemma_blinker_column_turns(
    g: GridModel,
    x: int,
    y: int,
    x0: int,
    y0: int,
    x1: int,
    y1: int,
)
    requires
        g.wf(),
        g.in_bounds(x - 1, y),
        g.in_bounds(x + 1, y + 2),
        g.only_column_lives(x, y, x0 - 1, y0 - 1, x1 + 1, y1 + 1),
    ensures
        g.advance().wf(),
        forall|a: int, b: int|
            g.in_bounds(a, b) && in_rect(x0, y0, x1, y1, a, b) ==> #[trigger] g.advance().at(a, b)
                == (if in_row(x - 1, y + 1, a, b) {
                Cell::Alive
            } else if in_column(x, y, a, b) {
                Cell::Dead
            } else {
                g.at(a, b)
            }),
        g.advance().only_row_lives(x - 1, y + 1, x0, y0, x1, y1),
{
    lemma_advance_at(g, x, y);
    assert forall|a: int, b: int| g.in_bounds(a, b) && in_rect(x0, y0, x1, y1, a, b) implies (
    #[trigger] g.advance().at(a, b)) == (if in_row(x - 1, y + 1, a, b) {
        Cell::Alive
    } else if in_column(x, y, a, b) {
        Cell::Dead
    } else {
        g.at(a, b)
    }) by {
        lemma_advance_at(g, a, b);
        assert(g.live(a, b) <==> in_column(x, y, a, b));
        if in_row(x - 1, y + 1, a, b) {
            if a == x {
                assert(g.live_neighbors(a, b) == 2);
            } else {
                assert(g.live_neighbors(a, b) == 3);
            }
        } else if in_column(x, y, a, b) {
            assert(g.live_neighbors(a, b) == 1);
        } else {
            assert(g.live_neighbors(a, b) <= 2);
        }
    }
    assert forall|a: int, b: int|
        g.advance().in_bounds(a, b) && in_rect(x0, y0, x1, y1, a, b) implies (
    #[trigger] g.advance().live(a, b) <==> in_row(x - 1, y + 1, a, b)) by {
        assert(g.live(a, b) <==> in_column(x, y, a, b));
        assert(g.advance().at(a, b).live() <==> in_row(x - 1, y + 1, a, b));
    }
}

/// The blinker is an oscillator of period two. Let the cells above and
/// below the middle of the row `(x, y)`, `(x + 1, y)`, `(x + 2, y)` exist,
/// and let the cells of that row be the only live cells in a rectangle and
/// two cells around it. Then after one generation the live cells of the
/// rectangle, and of one cell around it, are exactly those of the column
/// through the middle of the row, and after two generations the live cells
/// of the rectangle are exactly those of the row again.
pub proof fn lemma_blinker_period_two(
    g: GridModel,
    x: int,
    y: int,
    x0: int,
    y0: int,
    x1: int,
    y1: int,
)
    requires
        g.wf(),
        g.in_bounds(x, y - 1),
        g.in_bounds(x + 2, y + 1),
        g.only_row_lives(x, y, x0 - 2, y0 - 2, x1 + 2, y1 + 2),
    ensures
        g.advance().only_column_lives(x + 1, y - 1, x0 - 1, y0 - 1, x1 + 1, y1 + 1),
        g.advance_by(2).only_row_lives(x, y, x0, y0, x1, y1),
{
    lemma_blinker_row_turns(g, x, y, x0 - 1, y0 - 1, x1 + 1, y1 + 1);
    let g1 = g.advance();
    assert(g1.in_bounds(x, y - 1) && g1.in_bounds(x + 2, y + 1));
    lemma_blinker_column_turns(g1, x + 1, y - 1, x0, y0, x1, y1);
    assert(g.advance_by(2) == g1.advance()) by {
        reveal_with_fuel(GridModel::advance_by, 3);
    }
}

} // verus!
