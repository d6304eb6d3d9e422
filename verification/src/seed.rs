use vstd::prelude::*;
use crate::cell::Cell;
use crate::grid::{lemma_coords_of_index, lemma_index_of_coords, Grid, GridError, GridModel};

verus! {

/// Whether `(x, y)` belongs to the sample pattern, an R-pentomino near the
/// middle of a 100x100 grid.
pub open spec fn is_sample(x: int, y: int) -> bool {
    ||| (x == 50 && y == 50)
    ||| (x == 50 && y == 51)
    ||| (x == 49 && y == 51)
    ||| (x == 50 && y == 52)
    ||| (x == 51 && y == 52)
}

/// The points of the sample pattern, as a seed.
pub open spec fn sample_points() -> Seq<(usize, usize)> {
    seq![(50usize, 50usize), (50usize, 51usize), (49usize, 51usize), (50usize, 52usize), (51usize, 52usize)]
}

/// Whether some point of `seed` is `(x, y)`.
pub open spec fn seed_names(seed: Seq<(usize, usize)>, x: int, y: int) -> bool {
    exists|j: int| 0 <= j < seed.len() && (#[trigger] seed[j]).0 == x && seed[j].1 == y
}

/// The sample seed names exactly the points of the sample pattern.
pub proof fn lemma_sample_points(x: int, y: int)
    ensures
        is_sample(x, y) <==> seed_names(sample_points(), x, y),
{
    let s = sample_points();
    assert(s.len() == 5);
    assert(s[0] == (50usize, 50usize));
    assert(s[1] == (50usize, 51usize));
    assert(s[2] == (49usize, 51usize));
    assert(s[3] == (50usize, 52usize));
    assert(s[4] == (51usize, 52usize));
}

/// The sample pattern as a list of seed points.
pub fn sample_seed() -> (seed: Vec<(usize, usize)>)
    ensures
        seed@ == sample_points(),
{
    let mut seed: Vec<(usize, usize)> = Vec::new();
    seed.push((50, 50));
    seed.push((50, 51));
    seed.push((49, 51));
    seed.push((50, 52));
    seed.push((51, 52));
    assert(seed@ =~= sample_points());
    seed
}

/// Whether `(x, y)` is a point of the sample pattern.
pub fn check_samples(x: i32, y: i32) -> (hit: bool)
    ensures
        hit == is_sample(x as int, y as int),
{
    if x < 0 || y < 0 {
        return false;
    }
    let shape = sample_seed();
    let mut i: usize = 0;
    while i < shape.len()
        invariant
            0 <= x,
            0 <= y,
            i <= shape@.len(),
            shape@ == sample_points(),
            forall|k: int| 0 <= k < i ==> !(shape@[k].0 == x && shape@[k].1 == y),
        decreases shape@.len() - i,
    {
        let (sx, sy) = shape[i];
        if sx == x as usize && sy == y as usize {
            proof {
                lemma_sample_points(x as int, y as int);
                assert(shape@[i as int].0 == x);
            }
            return true;
        }
        i = i + 1;
    }
    proof {
        lemma_sample_points(x as int, y as int);
    }
    false
}

impl GridModel {
    /// The grid in which every cell named by a point of `seed` is `Alive`
    /// and every other cell is as it was. Points outside the grid name no
    /// cell and change nothing.
    pub open spec fn seeded(self, seed: Seq<(usize, usize)>) -> GridModel {
        GridModel {
            width: self.width,
            height: self.height,
            cells: Seq::new(
                self.cells.len(),
                |i: int|
                    if seed_names(seed, i % self.width as int, i / self.width as int) {
                        Cell::Alive
                    } else {
                        self.cells[i]
                    },
            ),
        }
    }

    /// How many points of `seed` lie outside the grid.
    pub open spec fn invalid_points(self, seed: Seq<(usize, usize)>) -> nat
        decreases seed.len(),
    {
        if seed.len() == 0 {
            0
        } else {
            let rest = self.invalid_points(seed.drop_last());
            if self.in_bounds(seed.last().0 as int, seed.last().1 as int) {
                rest
            } else {
                rest + 1
            }
        }
    }
}

/// Inside the grid a seeded cell is `Alive` exactly if the seed names it,
/// and is otherwise untouched.
pub proof fn lemma_seeded_at(g: GridModel, seed: Seq<(usize, usize)>, x: int, y: int)
    requires
        g.wf(),
        g.in_bounds(x, y),
    ensures
        g.seeded(seed).wf(),
        g.seeded(seed).at(x, y) == (if seed_names(seed, x, y) {
            Cell::Alive
        } else {
            g.at(x, y)
        }),
{
    lemma_index_of_coords(g.width as int, g.height as int, x, y);
}

/// A seed that is one point longer names that point and what the shorter
/// seed names.
pub proof fn lemma_seed_names_step(seed: Seq<(usize, usize)>, i: int, a: int, b: int)
    requires
        0 <= i < seed.len(),
    ensures
        seed_names(seed.take(i + 1), a, b) <==> (seed_names(seed.take(i), a, b) || (seed[i].0 == a
            && seed[i].1 == b)),
{
    let shorter = seed.take(i);
    let longer = seed.take(i + 1);
    if seed_names(shorter, a, b) {
        let j = choose|j: int|
            0 <= j < shorter.len() && (#[trigger] shorter[j]).0 == a && shorter[j].1 == b;
        assert(longer[j].0 == a && longer[j].1 == b);
    }
    if seed[i].0 == a && seed[i].1 == b {
        assert(longer[i].0 == a && longer[i].1 == b);
    }
    if seed_names(longer, a, b) {
        let j = choose|j: int|
            0 <= j < longer.len() && (#[trigger] longer[j]).0 == a && longer[j].1 == b;
        if j < i {
            assert(shorter[j].0 == a && shorter[j].1 == b);
        }
    }
}

/// Seeding is marking the points one after the other: the empty seed
/// changes nothing, and one more point marks its cell `Alive` if it lies
/// inside the grid and is counted as invalid if it does not.
pub proof fn lemma_seeded_step(g: GridModel, seed: Seq<(usize, usize)>, i: int)
    requires
        g.wf(),
        0 <= i < seed.len(),
    ensures
        g.seeded(seed.take(0)) == g,
        g.invalid_points(seed.take(0)) == 0,
        g.in_bounds(seed[i].0 as int, seed[i].1 as int) ==> g.seeded(seed.take(i + 1)) == g.seeded(
            seed.take(i),
        ).set(seed[i].0 as int, seed[i].1 as int, Cell::Alive) && g.invalid_points(seed.take(i + 1))
            == g.invalid_points(seed.take(i)),
        !g.in_bounds(seed[i].0 as int, seed[i].1 as int) ==> g.seeded(seed.take(i + 1))
            == g.seeded(seed.take(i)) && g.invalid_points(seed.take(i + 1)) == g.invalid_points(
            seed.take(i),
        ) + 1,
{
    let x = seed[i].0 as int;
    let y = seed[i].1 as int;
    let shorter = g.seeded(seed.take(i));
    let longer = g.seeded(seed.take(i + 1));
    assert(g.seeded(seed.take(0)).cells =~= g.cells);
    assert(seed.take(i + 1).drop_last() =~= seed.take(i));
    assert(seed.take(i + 1).last() == seed[i]);
    let stepped = if g.in_bounds(x, y) {
        shorter.set(x, y, Cell::Alive)
    } else {
        shorter
    };
    if g.in_bounds(x, y) {
        lemma_index_of_coords(g.width as int, g.height as int, x, y);
    }
    assert forall|k: int| 0 <= k < g.cells.len() implies longer.cells[k] == stepped.cells[k] by {
        lemma_coords_of_index(g.width as int, g.height as int, k);
        lemma_seed_names_step(seed, i, k % g.width as int, k / g.width as int);
    }
    assert(longer.cells =~= stepped.cells);
}

/// Seeding with the sample pattern makes exactly the sample points `Alive`
/// and leaves every other cell as it was.
pub proof fn lemma_sample_seeded(g: GridModel, x: int, y: int)
    requires
        g.wf(),
        g.in_bounds(x, y),
    ensures
        g.seeded(sample_points()).at(x, y) == (if is_sample(x, y) {
            Cell::Alive
        } else {
            g.at(x, y)
        }),
{
    lemma_seeded_at(g, sample_points(), x, y);
    lemma_sample_points(x, y);
}

impl Grid {
    /// Marks the seed point `(x, y)` as `Alive`, or returns `InvalidSeed`
    /// and leaves the grid as it was when the point lies outside the grid.
    pub fn seed_cell(&mut self, x: usize, y: usize) -> (done: Result<(), GridError>)
        ensures
            old(self)@.in_bounds(x as int, y as int) ==> done == Ok::<(), GridError>(())
                && final(self)@ == old(self)@.set(x as int, y as int, Cell::Alive),
            !old(self)@.in_bounds(x as int, y as int) ==> done == Err::<(), GridError>(
                GridError::InvalidSeed,
            ) && final(self)@ == old(self)@,
    {
        match self.set(x, y, Cell::Alive) {
            Ok(()) => Ok(()),
            Err(_) => Err(GridError::InvalidSeed),
        }
    }

    /// Marks every point of `seed` as `Alive`. A point outside the grid is
    /// skipped; the result is the number of points skipped.
    pub fn seed(&mut self, seed: &Vec<(usize, usize)>) -> (skipped: usize)
        ensures
            final(self)@ == old(self)@.seeded(seed@),
            skipped == old(self)@.invalid_points(seed@),
            skipped <= seed@.len(),
    {
        let ghost before = self@;
        let mut skipped: usize = 0;
        let mut i: usize = 0;
        proof {
            use_type_invariant(&*self);
            if seed@.len() > 0 {
                lemma_seeded_step(before, seed@, 0);
            } else {
                assert(before.seeded(seed@.take(0)).cells =~= before.cells);
            }
        }
        while i < seed.len()
            invariant
                before.wf(),
                i <= seed@.len(),
                self@ == before.seeded(seed@.take(i as int)),
                skipped == before.invalid_points(seed@.take(i as int)),
                skipped <= i,
            decreases seed@.len() - i,
        {
            let (x, y) = seed[i];
            proof {
                lemma_seeded_step(before, seed@, i as int);
            }
            if self.seed_cell(x, y).is_err() {
                skipped = skipped + 1;
            }
            i = i + 1;
        }
        assert(seed@.take(i as int) =~= seed@);
        skipped
    }
}

} // verus!
