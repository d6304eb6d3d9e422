use vstd::prelude::*;
use crate::game::{lemma_ticked_by_step, Applied, GameModel, GameOfLife};

verus! {

/// The mathematical state of a periodic timer: its period, and the time
/// gathered since it last fired.
pub struct CadenceModel {
    pub period: nat,
    pub elapsed: nat,
}

impl CadenceModel {
    /// The period is not zero, and less than a period is gathered.
    pub open spec fn wf(self) -> bool {
        0 < self.period && self.elapsed < self.period
    }

    /// How often the timer fires when `delta` more time has passed: once
    /// for every whole period gathered.
    pub open spec fn fires(self, delta: nat) -> nat {
        (self.elapsed + delta) / self.period
    }

    /// The timer after `delta` more time has passed: what is left over
    /// after the last firing stays gathered.
    pub open spec fn advanced(self, delta: nat) -> CadenceModel {
        CadenceModel { period: self.period, elapsed: (self.elapsed + delta) % self.period }
    }
}

/// A periodic timer driven by the time that passes between frames. It
/// gathers the time it is given and fires once for every whole period.
#[derive(Debug)]
pub struct Cadence {
    period: u64,
    elapsed: u64,
}

impl View for Cadence {
    type V = CadenceModel;

    closed spec fn view(&self) -> CadenceModel {
        CadenceModel { period: self.period as nat, elapsed: self.elapsed as nat }
    }
}

impl Cadence {
    /// The representation invariant, which every timer meets at all times:
    /// the period is not zero, and less than a period is gathered.
    #[verifier::type_invariant]
    pub open spec fn wf(&self) -> bool {
        self@.wf()
    }

    /// A timer of the given period with no time gathered, or `None` for a
    /// period of zero.
    pub fn new(period: u64) -> (cadence: Option<Cadence>)
        ensures
            cadence is Some <==> period > 0,
            cadence matches Some(c) ==> c@ == (CadenceModel {
                period: period as nat,
                elapsed: 0,
            }),
    {
        if period == 0 {
            None
        } else {
            Some(Cadence { period, elapsed: 0 })
        }
    }

    /// The period.
    pub fn period(&self) -> (period: u64)
        ensures
            period == self@.period,
    {
        self.period
    }

    /// The time gathered since the timer last fired.
    pub fn elapsed(&self) -> (elapsed: u64)
        ensures
            elapsed == self@.elapsed,
    {
        self.elapsed
    }

    /// Lets `delta` more time pass; the result is how often the timer
    /// fires.
    pub fn advance(&mut self, delta: u64) -> (fired: u64)
        ensures
            final(self)@ == old(self)@.advanced(delta as nat),
            fired == old(self)@.fires(delta as nat),
    {
        proof {
            use_type_invariant(&*self);
        }
        let total: u128 = self.elapsed as u128 + delta as u128;
        let period: u128 = self.period as u128;
        let fired: u128 = total / period;
        let rest: u128 = total % period;
        assert(fired <= delta) by (nonlinear_arith)
            requires
                fired == total / period,
                total < period + delta,
                0 < period,
                0 <= delta,
        ;
        self.elapsed = rest as u64;
        fired as u64
    }
}

/// What the pointer shows when it is sampled: the world point under it, and
/// which of the two buttons are down.
#[derive(Clone, Copy, Debug, PartialEq, Eq)]
pub struct PointerSample {
    pub wx: i64,
    pub wy: i64,
    pub draw: bool,
    pub erase: bool,
}

/// What one frame did.
#[derive(Clone, Copy, Debug, PartialEq, Eq)]
pub struct FrameReport {
    /// How often the fast cadence fired.
    pub input_ticks: u64,
    /// The cells edited by the input phase.
    pub applied: Applied,
    /// How many generations the grid moved on.
    pub generations: u64,
}

/// The mathematical state of the two timers.
pub struct SchedulerModel {
    pub input: CadenceModel,
    pub generation: CadenceModel,
}

impl SchedulerModel {
    /// Both timers after `delta` more time has passed.
    pub open spec fn advanced(self, delta: nat) -> SchedulerModel {
        SchedulerModel {
            input: self.input.advanced(delta),
            generation: self.generation.advanced(delta),
        }
    }
}

impl GameModel {
    /// The game after the pointer was sampled, if there is a pointer.
    pub open spec fn sampled(self, pointer: Option<PointerSample>) -> GameModel {
        match pointer {
            Some(p) => self.targeted(p.wx as int, p.wy as int, p.draw, p.erase),
            None => self,
        }
    }

    /// The game after the input phase of a frame: the pointer is sampled,
    /// and then the pending edits are applied.
    pub open spec fn after_input(self, pointer: Option<PointerSample>) -> GameModel {
        self.sampled(pointer).applied()
    }

    /// The cells that a frame paints and erases: those of its input phase,
    /// if the fast cadence fired at all.
    pub open spec fn frame_edits(self, input_ticks: nat, pointer: Option<PointerSample>) -> (
        Option<(int, int)>,
        Option<(int, int)>,
    ) {
        if input_ticks > 0 {
            self.sampled(pointer).edits()
        } else {
            (None, None)
        }
    }

    /// The number of generations that a frame makes: one for every firing
    /// of the slow cadence while the simulation runs, none while it is
    /// paused.
    pub open spec fn frame_generations(self, generation_ticks: nat) -> nat {
        if self.running {
            generation_ticks
        } else {
            0
        }
    }

    /// The game after a frame in which the fast cadence fired
    /// `input_ticks` times and the slow cadence `generation_ticks` times:
    /// first the input phase, if the fast cadence fired at all, and only
    /// then the generations.
    pub open spec fn after_frame(
        self,
        input_ticks: nat,
        pointer: Option<PointerSample>,
        generation_ticks: nat,
    ) -> GameModel {
        let edited = if input_ticks > 0 {
            self.after_input(pointer)
        } else {
            self
        };
        edited.ticked_by(generation_ticks)
    }
}

/// The two phases of a frame never meet on the grid. While the simulation
/// runs, the input phase leaves the grid alone and the frame is its
/// generations; while it is paused, no generation is made and the frame is
/// its input phase. Neither phase changes the run state.
pub proof fn lemma_frame_phases(
    m: GameModel,
    input_ticks: nat,
    pointer: Option<PointerSample>,
    generation_ticks: nat,
)
    ensures
        m.after_frame(input_ticks, pointer, generation_ticks).running == m.running,
        m.running ==> m.after_frame(input_ticks, pointer, generation_ticks).grid
            == m.grid.advance_by(generation_ticks),
        !m.running && input_ticks > 0 ==> m.after_frame(input_ticks, pointer, generation_ticks)
            == m.after_input(pointer),
        !m.running && input_ticks == 0 ==> m.after_frame(input_ticks, pointer, generation_ticks)
            == m,
{
}

/// The two cadences of the game: a fast one on which the pointer is sampled
/// and the pending edits are applied, and a slow one on which the
/// simulation moves on by a generation. Within a frame the order is fixed:
/// sample, apply, advance.
#[derive(Debug)]
pub struct Scheduler {
    input: Cadence,
    generation: Cadence,
}

impl View for Scheduler {
    type V = SchedulerModel;

    closed spec fn view(&self) -> SchedulerModel {
        SchedulerModel { input: self.input@, generation: self.generation@ }
    }
}

impl Scheduler {
    /// Two timers of the given periods with no time gathered, or `None`
    /// when a period is zero.
    pub fn new(input_period: u64, generation_period: u64) -> (scheduler: Option<Scheduler>)
        ensures
            scheduler is Some <==> input_period > 0 && generation_period > 0,
            scheduler matches Some(s) ==> s@ == (SchedulerModel {
                input: CadenceModel { period: input_period as nat, elapsed: 0 },
                generation: CadenceModel { period: generation_period as nat, elapsed: 0 },
            }),
    {
        match Cadence::new(input_period) {
            None => None,
            Some(input) => match Cadence::new(generation_period) {
                None => None,
                Some(generation) => Some(Scheduler { input, generation }),
            },
        }
    }

    /// The usual cadences, in microseconds: input every 16 ms, a
    /// generation every 60 ms.
    pub fn standard() -> (scheduler: Scheduler)
        ensures
            scheduler@ == (SchedulerModel {
                input: CadenceModel { period: 16_000, elapsed: 0 },
                generation: CadenceModel { period: 60_000, elapsed: 0 },
            }),
    {
        Scheduler {
            input: Cadence { period: 16_000, elapsed: 0 },
            generation: Cadence { period: 60_000, elapsed: 0 },
        }
    }

    /// The fast timer, on which input is taken.
    pub fn input(&self) -> (cadence: &Cadence)
        ensures
            cadence@ == self@.input,
    {
        &self.input
    }

    /// The slow timer, on which generations are made.
    pub fn generation(&self) -> (cadence: &Cadence)
        ensures
            cadence@ == self@.generation,
    {
        &self.generation
    }

    /// Runs one frame that lasted `delta`. Both timers gather `delta`. If
    /// the fast cadence fires, the pointer is sampled and the pending edits
    /// are applied, once. Then, once for every firing of the slow cadence,
    /// the simulation ticks. So the edits of a frame are in the grid before
    /// any generation of that frame reads it.
    pub fn run_frame(
        &mut self,
        game: &mut GameOfLife,
        delta: u64,
        pointer: Option<PointerSample>,
    ) -> (report: FrameReport)
        ensures
            final(self)@ == old(self)@.advanced(delta as nat),
            report.input_ticks == old(self)@.input.fires(delta as nat),
            final(game)@ == old(game)@.after_frame(
                old(self)@.input.fires(delta as nat),
                pointer,
                old(self)@.generation.fires(delta as nat),
            ),
            report.applied@ == old(game)@.frame_edits(
                old(self)@.input.fires(delta as nat),
                pointer,
            ),
            report.generations == old(game)@.frame_generations(
                old(self)@.generation.fires(delta as nat),
            ),
    {
        let input_ticks = self.input.advance(delta);
        let generation_ticks = self.generation.advance(delta);
        let mut applied = Applied { painted: None, erased: None };
        if input_ticks > 0 {
            match pointer {
                Some(p) => {
                    game.set_target(p.wx, p.wy, p.draw, p.erase);
                },
                None => {},
            }
            applied = game.apply();
        }
        let mut generations: u64 = 0;
        if game.is_running() {
            let ghost edited = game@;
            proof {
                lemma_ticked_by_step(edited, 0);
            }
            while generations < generation_ticks
                invariant
                    edited.running,
                    generations <= generation_ticks,
                    game@ == edited.ticked_by(generations as nat),
                decreases generation_ticks - generations,
            {
                proof {
                    lemma_ticked_by_step(edited, generations as nat);
                }
                game.tick();
                generations = generations + 1;
            }
        }
        FrameReport { input_ticks, applied, generations }
    }
}

} // verus!
