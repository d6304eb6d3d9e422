use vstd::prelude::*;
use vstd::arithmetic::div_mod::{lemma_fundamental_div_mod, lemma_fundamental_div_mod_converse, lemma_mod_bound};
use crate::grid::GridModel;

verus! {

/// Whether the point `(px, py)` lies in the axis-aligned box around
/// `(cx, cy)` that reaches `hx` to either side and `hy` up and down. The
/// lower bounds belong to the box, the upper bounds do not, so boxes that
/// touch share no point.
pub open spec fn in_cell_bounds(px: int, py: int, cx: int, cy: int, hx: int, hy: int) -> bool {
    cx - hx <= px < cx + hx && cy - hy <= py < cy + hy
}

/// Where the centre of column or row `index` lies along its axis, for cells
/// that reach `half` to either side of their centre.
pub open spec fn cell_center(half: int, index: int) -> int {
    2 * half * index
}

/// The column or row, out of `count`, whose span along one axis holds the
/// world coordinate `w`, if there is one.
pub open spec fn axis_cell(w: int, half: int, count: int) -> Option<int> {
    if half <= 0 || w + half < 0 {
        None
    } else if (w + half) / (2 * half) < count {
        Some((w + half) / (2 * half))
    } else {
        None
    }
}

/// The cell of `grid` whose box holds the world point `(wx, wy)`, if there
/// is one.
pub open spec fn target_cell(grid: GridModel, half: int, wx: int, wy: int) -> Option<(int, int)> {
    match (axis_cell(wx, half, grid.width as int), axis_cell(wy, half, grid.height as int)) {
        (Some(x), Some(y)) => Some((x, y)),
        _ => None,
    }
}

/// Along one axis, `w` falls to column or row `index` exactly if `index`
/// exists and `w` lies within `half` of its centre.
pub proof fn lemma_axis_cell(w: int, half: int, count: int, index: int)
    requires
        half > 0,
    ensures
        axis_cell(w, half, count) == Some(index) <==> (0 <= index < count && cell_center(half, index)
            - half <= w < cell_center(half, index) + half),
{
    let size = 2 * half;
    let q = (w + half) / size;
    let r = (w + half) % size;
    lemma_fundamental_div_mod(w + half, size);
    lemma_mod_bound(w + half, size);
    assert(size * q == 2 * half * q) by (nonlinear_arith)
        requires
            size == 2 * half,
    ;
    if w + half >= 0 {
        assert(q >= 0) by (nonlinear_arith)
            requires
                w + half == size * q + r,
                0 <= r < size,
                w + half >= 0,
        ;
    }
    if 0 <= index < count && cell_center(half, index) - half <= w < cell_center(half, index) + half {
        let rest = w + half - 2 * half * index;
        assert(2 * half * index == index * size) by (nonlinear_arith)
            requires
                size == 2 * half,
        ;
        lemma_fundamental_div_mod_converse(w + half, size, index, rest);
        assert(w + half >= 0) by (nonlinear_arith)
            requires
                w + half == index * size + rest,
                0 <= rest,
                0 <= index,
                0 < size,
        ;
    }
}

/// A world point falls to the cell `(x, y)` exactly if `(x, y)` is a cell
/// of the grid and the point lies in the box of `half` around its centre.
/// So a point falls to at most one cell, and to none only if no cell's box
/// holds it.
pub proof fn lemma_target_cell(grid: GridModel, half: int, wx: int, wy: int, x: int, y: int)
    requires
        half > 0,
    ensures
        target_cell(grid, half, wx, wy) == Some((x, y)) <==> (grid.in_bounds(x, y) && in_cell_bounds(
            wx,
            wy,
            cell_center(half, x),
            cell_center(half, y),
            half,
            half,
        )),
{
    lemma_axis_cell(wx, half, grid.width as int, x);
    lemma_axis_cell(wy, half, grid.height as int, y);
}

/// Whether the point `xy` lies in the box around `center` that reaches
/// `dims.0` to either side and `dims.1` up and down.
pub fn is_in_cell_bounds(xy: (i64, i64), center: (i64, i64), dims: (i64, i64)) -> (inside: bool)
    ensures
        inside == in_cell_bounds(
            xy.0 as int,
            xy.1 as int,
            center.0 as int,
            center.1 as int,
            dims.0 as int,
            dims.1 as int,
        ),
{
    let px: i128 = xy.0 as i128;
    let py: i128 = xy.1 as i128;
    let cx: i128 = center.0 as i128;
    let cy: i128 = center.1 as i128;
    let hx: i128 = dims.0 as i128;
    let hy: i128 = dims.1 as i128;
    px >= cx - hx && px < cx + hx && py >= cy - hy && py < cy + hy
}

/// The column or row, out of `count`, whose span holds the world
/// coordinate `w`.
pub fn locate(w: i64, half: u32, count: usize) -> (index: Option<usize>)
    ensures
        index matches Some(i) ==> axis_cell(w as int, half as int, count as int) == Some(i as int),
        index is None ==> axis_cell(w as int, half as int, count as int) is None,
{
    if half == 0 {
        return None;
    }
    let shifted: i128 = w as i128 + half as i128;
    if shifted < 0 {
        return None;
    }
    let size: i128 = 2 * (half as i128);
    let q: i128 = shifted / size;
    if q < count as i128 {
        assert(0 <= q) by (nonlinear_arith)
            requires
                q == shifted / size,
                0 <= shifted,
                0 < size,
        ;
        Some(q as usize)
    } else {
        None
    }
}

} // verus!
