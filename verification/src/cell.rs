use vstd::prelude::*;

verus! {

/// The state of one grid cell.
///
/// Only `Alive` takes part in neighbour counting. `Dead` marks a cell that
/// was alive and has died; it exists so that a renderer can show it
/// differently from `Empty`, a cell that never lived or was erased. For the
/// generation rule `Dead` and `Empty` are the same thing: not alive.
#[derive(Clone, Copy, Debug, PartialEq, Eq, Structural)]
pub enum Cell {
    Alive,
    Dead,
    Empty,
}

impl Cell {
    /// Whether the cell counts as a live neighbour.
    pub open spec fn live(self) -> bool {
        self is Alive
    }

    /// Whether the cell counts as a live neighbour.
    pub fn is_alive(self) -> (alive: bool)
        ensures
            alive == self.live(),
    {
        match self {
            Cell::Alive => true,
            Cell::Dead => false,
            Cell::Empty => false,
        }
    }
}

} // verus!
