use vstd::prelude::*;
use crate::cell::Cell;
use crate::grid::{lemma_blank_is_empty, lemma_index_of_coords, Grid, GridModel};
use crate::interaction::{locate, target_cell};
use crate::rules::lemma_advance_by_add;

verus! {

/// Which edit stands when one application finds a pending paint and a
/// pending erase on the same cell. The two arrive on independent channels
/// with no order between them, so the order is a setting, not a rule.
#[derive(Clone, Copy, Debug, PartialEq, Eq, Structural)]
pub enum TieBreak {
    /// The paint is applied first and the erase second: the cell ends
    /// `Empty`.
    EraseWins,
    /// The erase is applied first and the paint second: the cell ends
    /// `Alive`.
    DrawWins,
}

/// The constants a game is made with.
#[derive(Clone, Copy, Debug, PartialEq, Eq, Structural)]
pub struct Config {
    /// The number of columns.
    pub width: usize,
    /// The number of rows.
    pub height: usize,
    /// Half the side of a cell, in world units. The centre of cell `(x, y)`
    /// lies at `(2 * half_cell * x, 2 * half_cell * y)`.
    pub half_cell: u32,
    /// Which edit stands when a paint and an erase meet on one cell.
    pub tie_break: TieBreak,
}

impl Config {
    /// A configuration is usable if its cells have a size and their number
    /// fits the machine's address range.
    pub open spec fn valid(self) -> bool {
        self.half_cell > 0 && self.width * self.height <= usize::MAX
    }

    /// A grid of 100x100 cells of 32 world units each, on which an erase
    /// beats a paint.
    pub fn standard() -> (config: Config)
        ensures
            config == (Config {
                width: 100,
                height: 100,
                half_cell: 16,
                tie_break: TieBreak::EraseWins,
            }),
            config.valid(),
    {
        Config { width: 100, height: 100, half_cell: 16, tie_break: TieBreak::EraseWins }
    }
}

/// What one application of the pending edits did: the cell that was painted
/// and the cell that was erased, where there was one.
#[derive(Clone, Copy, Debug, PartialEq, Eq)]
pub struct Applied {
    pub painted: Option<(usize, usize)>,
    pub erased: Option<(usize, usize)>,
}

/// A cell as a pair of mathematical integers.
pub open spec fn cell_view(cell: Option<(usize, usize)>) -> Option<(int, int)> {
    match cell {
        Some((x, y)) => Some((x as int, y as int)),
        None => None,
    }
}

impl View for Applied {
    type V = (Option<(int, int)>, Option<(int, int)>);

    /// The painted cell and the erased cell, in this order.
    open spec fn view(&self) -> (Option<(int, int)>, Option<(int, int)>) {
        (cell_view(self.painted), cell_view(self.erased))
    }
}

impl GridModel {
    /// The grid with the cell at `target`, if any, replaced by `cell`.
    pub open spec fn put(self, target: Option<(int, int)>, cell: Cell) -> GridModel {
        match target {
            Some((x, y)) => self.set(x, y, cell),
            None => self,
        }
    }
}

/// The mathematical state of a game: the grid, the run state, the two
/// single-slot mailboxes of pending edits (world points), and the constants.
pub struct GameModel {
    pub grid: GridModel,
    pub running: bool,
    pub draw: Option<(int, int)>,
    pub erase: Option<(int, int)>,
    pub half_cell: int,
    pub tie_break: TieBreak,
}

impl GameModel {
    /// The grid is well formed and the cells have a size. Every game is
    /// created so, and no operation changes that.
    pub open spec fn wf(self) -> bool {
        self.grid.wf() && self.half_cell > 0
    }

    /// The state a game is created in: paused, nothing pending, every cell
    /// `Empty`.
    pub open spec fn initial(config: Config) -> GameModel {
        GameModel {
            grid: GridModel::blank(config.width as nat, config.height as nat),
            running: false,
            draw: None,
            erase: None,
            half_cell: config.half_cell as int,
            tie_break: config.tie_break,
        }
    }

    /// After a start event.
    pub open spec fn started(self) -> GameModel {
        GameModel { running: true, ..self }
    }

    /// After a stop event.
    pub open spec fn stopped(self) -> GameModel {
        GameModel { running: false, ..self }
    }

    /// After a reset event: paused, nothing pending, every cell `Empty`.
    pub open spec fn cleared(self) -> GameModel {
        GameModel {
            grid: GridModel::blank(self.grid.width, self.grid.height),
            running: false,
            draw: None,
            erase: None,
            ..self
        }
    }

    /// After a paint at the world point `(wx, wy)`: while paused the point
    /// takes the paint slot, replacing what was there; while running
    /// nothing changes.
    pub open spec fn painted_at(self, wx: int, wy: int) -> GameModel {
        if self.running {
            self
        } else {
            GameModel { draw: Some((wx, wy)), ..self }
        }
    }

    /// After an erase at the world point `(wx, wy)`: while paused the point
    /// takes the erase slot, replacing what was there; while running
    /// nothing changes.
    pub open spec fn erased_at(self, wx: int, wy: int) -> GameModel {
        if self.running {
            self
        } else {
            GameModel { erase: Some((wx, wy)), ..self }
        }
    }

    /// After one sample of the pointer at `(wx, wy)` with the paint button
    /// down if `draw` and the erase button down if `erase`.
    pub open spec fn targeted(self, wx: int, wy: int, draw: bool, erase: bool) -> GameModel {
        let after_draw = if draw {
            self.painted_at(wx, wy)
        } else {
            self
        };
        if erase {
            after_draw.erased_at(wx, wy)
        } else {
            after_draw
        }
    }

    /// The cell that a pending world point falls to, if any.
    pub open spec fn resolve(self, slot: Option<(int, int)>) -> Option<(int, int)> {
        match slot {
            Some((wx, wy)) => target_cell(self.grid, self.half_cell, wx, wy),
            None => None,
        }
    }

    /// The grid with both pending edits made, in the order that the
    /// tie-break sets: a paint makes its cell `Alive`, an erase makes its
    /// cell `Empty`, a point that falls to no cell is dropped.
    pub open spec fn edited(self) -> GridModel {
        let painted = self.resolve(self.draw);
        let erased = self.resolve(self.erase);
        match self.tie_break {
            TieBreak::EraseWins => self.grid.put(painted, Cell::Alive).put(erased, Cell::Empty),
            TieBreak::DrawWins => self.grid.put(erased, Cell::Empty).put(painted, Cell::Alive),
        }
    }

    /// The cell that one application of the pending edits paints and the
    /// cell that it erases, in this order: none while the simulation runs.
    pub open spec fn edits(self) -> (Option<(int, int)>, Option<(int, int)>) {
        if self.running {
            (None, None)
        } else {
            (self.resolve(self.draw), self.resolve(self.erase))
        }
    }

    /// After one application of the pending edits. Both slots are emptied
    /// whatever the run state; the grid is edited only while paused.
    pub open spec fn applied(self) -> GameModel {
        GameModel {
            grid: if self.running {
                self.grid
            } else {
                self.edited()
            },
            draw: None,
            erase: None,
            ..self
        }
    }

    /// After one simulation tick: one generation further while running,
    /// unchanged while paused.
    pub open spec fn ticked(self) -> GameModel {
        if self.running {
            GameModel { grid: self.grid.advance(), ..self }
        } else {
            self
        }
    }

    /// After `n` simulation ticks.
    pub open spec fn ticked_by(self, n: nat) -> GameModel {
        if self.running {
            GameModel { grid: self.grid.advance_by(n), ..self }
        } else {
            self
        }
    }
}

/// Advancing keeps a grid well formed, however often.
pub proof fn lemma_advance_by_keeps_wf(g: GridModel, n: nat)
    requires
        g.wf(),
    ensures
        g.advance_by(n).wf(),
        g.advance_by(n).width == g.width,
        g.advance_by(n).height == g.height,
    decreases n,
{
    if n > 0 {
        lemma_advance_by_keeps_wf(g.advance(), (n - 1) as nat);
    }
}

/// No operation of the game leaves the well-formed states.
pub proof fn lemma_wf_is_kept(
    m: GameModel,
    wx: int,
    wy: int,
    draw: bool,
    erase: bool,
    seed: Seq<(usize, usize)>,
    n: nat,
)
    requires
        m.wf(),
    ensures
        m.started().wf(),
        m.stopped().wf(),
        m.cleared().wf(),
        m.painted_at(wx, wy).wf(),
        m.erased_at(wx, wy).wf(),
        m.targeted(wx, wy, draw, erase).wf(),
        m.applied().wf(),
        m.ticked().wf(),
        m.ticked_by(n).wf(),
        (GameModel { grid: m.grid.seeded(seed), ..m }).wf(),
{
    lemma_blank_is_empty(m.grid.width, m.grid.height);
    lemma_advance_by_keeps_wf(m.grid, n);
    if let Some((x, y)) = m.resolve(m.draw) {
        lemma_index_of_coords(m.grid.width as int, m.grid.height as int, x, y);
    }
    if let Some((x, y)) = m.resolve(m.erase) {
        lemma_index_of_coords(m.grid.width as int, m.grid.height as int, x, y);
    }
}

/// Starting twice is starting once: the simulation runs, and nothing else
/// has changed.
pub proof fn lemma_start_idempotent(m: GameModel)
    ensures
        m.started().running,
        m.started().started() == m.started(),
{
}

/// Stopping twice is stopping once: the simulation is paused, and nothing
/// else has changed.
pub proof fn lemma_stop_idempotent(m: GameModel)
    ensures
        !m.stopped().running,
        m.stopped().stopped() == m.stopped(),
{
}

/// While the simulation runs, neither taking a pointer sample nor applying
/// the pending edits touches the grid: a sample changes nothing at all, and
/// an application only empties the slots.
pub proof fn lemma_edits_ignored_while_running(
    m: GameModel,
    wx: int,
    wy: int,
    draw: bool,
    erase: bool,
)
    requires
        m.running,
    ensures
        m.painted_at(wx, wy) == m,
        m.erased_at(wx, wy) == m,
        m.targeted(wx, wy, draw, erase) == m,
        m.applied().grid == m.grid,
        m.applied().running,
        m.targeted(wx, wy, draw, erase).applied().grid == m.grid,
{
}

/// Whatever the state was, after a reset the simulation is paused, nothing
/// is pending and every cell is `Empty`.
pub proof fn lemma_reset_clears(m: GameModel)
    ensures
        !m.cleared().running,
        m.cleared().draw is None,
        m.cleared().erase is None,
        m.cleared().grid.wf(),
        m.cleared().grid.all_empty(),
        m.cleared().grid.width == m.grid.width,
        m.cleared().grid.height == m.grid.height,
{
    lemma_blank_is_empty(m.grid.width, m.grid.height);
}

/// Ticking `n + 1` times is ticking `n` times and then once more; ticking
/// no times changes nothing.
pub proof fn lemma_ticked_by_step(m: GameModel, n: nat)
    ensures
        m.ticked_by(0) == m,
        m.ticked_by(n + 1) == m.ticked_by(n).ticked(),
{
    lemma_advance_by_add(m.grid, n, 1);
    reveal_with_fuel(GridModel::advance_by, 2);
}

/// A paint and an erase on different cells do not conflict: unless both
/// pending points fall to the same cell, the tie-break has no say in the
/// outcome.
pub proof fn lemma_tie_break_needs_a_tie(m: GameModel)
    requires
        m.wf(),
        m.resolve(m.draw) is None || m.resolve(m.draw) != m.resolve(m.erase),
    ensures
        (GameModel { tie_break: TieBreak::EraseWins, ..m }).edited() == (GameModel {
            tie_break: TieBreak::DrawWins,
            ..m
        }).edited(),
{
    let erase_wins = (GameModel { tie_break: TieBreak::EraseWins, ..m }).edited();
    let draw_wins = (GameModel { tie_break: TieBreak::DrawWins, ..m }).edited();
    match (m.resolve(m.draw), m.resolve(m.erase)) {
        (Some((px, py)), Some((ex, ey))) => {
            lemma_index_of_coords(m.grid.width as int, m.grid.height as int, px, py);
            lemma_index_of_coords(m.grid.width as int, m.grid.height as int, ex, ey);
            assert(m.grid.index_of(px, py) != m.grid.index_of(ex, ey));
            assert(erase_wins.cells =~= draw_wins.cells);
        },
        _ => {},
    }
}

/// Where both pending points fall to the same cell, the tie-break decides:
/// the cell ends `Empty` if the erase wins and `Alive` if the paint wins.
pub proof fn lemma_tie_break_decides(m: GameModel, x: int, y: int)
    requires
        m.wf(),
        m.resolve(m.draw) == Some((x, y)),
        m.resolve(m.erase) == Some((x, y)),
    ensures
        m.edited().at(x, y) == (match m.tie_break {
            TieBreak::EraseWins => Cell::Empty,
            TieBreak::DrawWins => Cell::Alive,
        }),
{
    lemma_index_of_coords(m.grid.width as int, m.grid.height as int, x, y);
}

/// The game: the grid, the run state and the pending edits in one owned
/// value that every operation borrows.
#[derive(Debug)]
pub struct GameOfLife {
    grid: Grid,
    running: bool,
    draw: Option<(i64, i64)>,
    erase: Option<(i64, i64)>,
    half_cell: u32,
    tie_break: TieBreak,
}

/// A pending world point as a pair of mathematical integers.
pub open spec fn slot_view(slot: Option<(i64, i64)>) -> Option<(int, int)> {
    match slot {
        Some((wx, wy)) => Some((wx as int, wy as int)),
        None => None,
    }
}

impl View for GameOfLife {
    type V = GameModel;

    closed spec fn view(&self) -> GameModel {
        GameModel {
            grid: self.grid@,
            running: self.running,
            draw: slot_view(self.draw),
            erase: slot_view(self.erase),
            half_cell: self.half_cell as int,
            tie_break: self.tie_break,
        }
    }
}

impl GameOfLife {
    /// A paused game on an all-`Empty` grid, or `None` when the
    /// configuration is not usable: its cells have no size, or there are
    /// more of them than the machine can address.
    pub fn new(config: Config) -> (game: Option<GameOfLife>)
        ensures
            game is Some <==> config.valid(),
            game matches Some(g) ==> g@ == GameModel::initial(config) && g@.wf(),
    {
        if config.half_cell == 0 {
            return None;
        }
        match Grid::new(config.width, config.height) {
            None => None,
            Some(grid) => Some(
                GameOfLife {
                    grid,
                    running: false,
                    draw: None,
                    erase: None,
                    half_cell: config.half_cell,
                    tie_break: config.tie_break,
                },
            ),
        }
    }

    /// Marks every point of `seed` as `Alive`, skipping the points outside
    /// the grid; the result is the number of points skipped.
    pub fn load_seed(&mut self, seed: &Vec<(usize, usize)>) -> (skipped: usize)
        ensures
            final(self)@ == (GameModel { grid: old(self)@.grid.seeded(seed@), ..old(self)@ }),
            skipped == old(self)@.grid.invalid_points(seed@),
    {
        self.grid.seed(seed)
    }

    /// The grid, for reading.
    pub fn grid(&self) -> (grid: &Grid)
        ensures
            grid@ == self@.grid,
    {
        &self.grid
    }

    /// Whether the simulation is running.
    pub fn is_running(&self) -> (running: bool)
        ensures
            running == self@.running,
    {
        self.running
    }

    /// Half the side of a cell, in world units.
    pub fn half_cell(&self) -> (half: u32)
        ensures
            half == self@.half_cell,
    {
        self.half_cell
    }

    /// Which edit stands when a paint and an erase meet on one cell.
    pub fn tie_break(&self) -> (tie_break: TieBreak)
        ensures
            tie_break == self@.tie_break,
    {
        self.tie_break
    }

    /// The world point waiting in the paint slot.
    pub fn pending_draw(&self) -> (slot: Option<(i64, i64)>)
        ensures
            slot_view(slot) == self@.draw,
    {
        self.draw
    }

    /// The world point waiting in the erase slot.
    pub fn pending_erase(&self) -> (slot: Option<(i64, i64)>)
        ensures
            slot_view(slot) == self@.erase,
    {
        self.erase
    }

    /// Start event: the simulation runs from now on.
    pub fn start(&mut self)
        ensures
            final(self)@ == old(self)@.started(),
    {
        self.running = true;
    }

    /// Stop event: the simulation is paused from now on.
    pub fn stop(&mut self)
        ensures
            final(self)@ == old(self)@.stopped(),
    {
        self.running = false;
    }

    /// Reset event: whatever the state was, the simulation is paused,
    /// nothing is pending and every cell is `Empty`.
    pub fn reset(&mut self)
        ensures
            final(self)@ == old(self)@.cleared(),
            !final(self)@.running,
            final(self)@.grid.all_empty(),
    {
        proof {
            lemma_blank_is_empty(old(self)@.grid.width, old(self)@.grid.height);
        }
        self.grid.clear();
        self.running = false;
        self.draw = None;
        self.erase = None;
    }

    /// Puts the world point `(wx, wy)` in the paint slot, replacing what
    /// waited there. Ignored while the simulation runs.
    pub fn paint_at(&mut self, wx: i64, wy: i64)
        ensures
            final(self)@ == old(self)@.painted_at(wx as int, wy as int),
    {
        if !self.running {
            self.draw = Some((wx, wy));
        }
    }

    /// Puts the world point `(wx, wy)` in the erase slot, replacing what
    /// waited there. Ignored while the simulation runs.
    pub fn erase_at(&mut self, wx: i64, wy: i64)
        ensures
            final(self)@ == old(self)@.erased_at(wx as int, wy as int),
    {
        if !self.running {
            self.erase = Some((wx, wy));
        }
    }

    /// Takes one sample of the pointer: the world point under it, and
    /// which of the two buttons are down. Ignored while the simulation runs.
    pub fn set_target(&mut self, wx: i64, wy: i64, draw: bool, erase: bool)
        ensures
            final(self)@ == old(self)@.targeted(wx as int, wy as int, draw, erase),
    {
        if draw {
            self.paint_at(wx, wy);
        }
        if erase {
            self.erase_at(wx, wy);
        }
    }

    /// The cell whose box holds the world point `(wx, wy)`, if there is
    /// one.
    pub fn cell_at(&self, wx: i64, wy: i64) -> (cell: Option<(usize, usize)>)
        ensures
            cell_view(cell) == target_cell(self@.grid, self@.half_cell, wx as int, wy as int),
    {
        let (width, height) = self.grid.dimensions();
        match locate(wx, self.half_cell, width) {
            None => None,
            Some(x) => match locate(wy, self.half_cell, height) {
                None => None,
                Some(y) => Some((x, y)),
            },
        }
    }

    /// Applies the pending edits and empties both slots. While paused, a
    /// pending paint makes the cell under its point `Alive` and a pending
    /// erase makes the cell under its point `Empty`; a point under which
    /// there is no cell is dropped. While the simulation runs the grid is
    /// left alone. The result names the cells that were edited.
    pub fn apply(&mut self) -> (report: Applied)
        ensures
            final(self)@ == old(self)@.applied(),
            report@ == old(self)@.edits(),
    {
        let draw = self.draw;
        let erase = self.erase;
        self.draw = None;
        self.erase = None;
        if self.running {
            return Applied { painted: None, erased: None };
        }
        let painted = match draw {
            Some((wx, wy)) => self.cell_at(wx, wy),
            None => None,
        };
        let erased = match erase {
            Some((wx, wy)) => self.cell_at(wx, wy),
            None => None,
        };
        match self.tie_break {
            TieBreak::EraseWins => {
                self.put(painted, Cell::Alive);
                self.put(erased, Cell::Empty);
            },
            TieBreak::DrawWins => {
                self.put(erased, Cell::Empty);
                self.put(painted, Cell::Alive);
            },
        }
        Applied { painted, erased }
    }

    /// Replaces the cell at `target`, if there is a target.
    fn put(&mut self, target: Option<(usize, usize)>, cell: Cell)
        requires
            target matches Some((x, y)) ==> old(self)@.grid.in_bounds(x as int, y as int),
        ensures
            final(self)@ == (GameModel {
                grid: old(self)@.grid.put(cell_view(target), cell),
                ..old(self)@
            }),
    {
        match target {
            Some((x, y)) => {
                let _ = self.grid.set(x, y, cell);
            },
            None => {},
        }
    }

    /// One simulation tick: while running, the grid moves on by one
    /// generation; while paused, nothing happens and the rule is not
    /// evaluated. The result says whether a generation was made.
    pub fn tick(&mut self) -> (advanced: bool)
        ensures
            final(self)@ == old(self)@.ticked(),
            advanced == old(self)@.running,
    {
        if self.running {
            self.grid.advance();
            true
        } else {
            false
        }
    }
}

} // verus!
