//! The simulation loop as a state machine: it says what the driver has to do
//! next (clear the display, show a text, pause) and moves the grid on by one
//! generation in each round. The driver does what it is told, and reports
//! back how that went.

use vstd::prelude::*;
use crate::grid::Grid;
use crate::model::GridView;
use crate::policy::{Variant, GENERATION_DELAY_MS};

verus! {

/// Where a round of the loop stands: what its next step is.
#[derive(Clone, Copy, Debug, PartialEq, Eq, Structural)]
pub enum Phase {
    /// The display is to be cleared.
    Clear,
    /// The current generation is to be shown.
    Render,
    /// The next generation is to be computed, and the loop to pause.
    Advance,
}

/// What the driver is asked to do.
#[derive(Debug, PartialEq, Eq)]
pub enum Action {
    /// Clear the display.
    ClearDisplay,
    /// Write this text to the display.
    Show(String),
    /// Wait this many milliseconds.
    Pause(u64),
}

/// How the action went that the driver was last asked for.
#[derive(Clone, Copy, Debug, PartialEq, Eq, Structural)]
pub enum Outcome {
    /// It was carried out; also what is reported before the first step.
    Done,
    /// It could not be carried out.
    Failed,
}

/// A simulation as contracts see it.
pub struct SimulationView {
    /// The current generation.
    pub grid: GridView,
    /// The next step of the round.
    pub phase: Phase,
}

impl SimulationView {
    /// Whether `action` is what the next step asks of the driver.
    pub open spec fn asks(self, action: Action) -> bool {
        match self.phase {
            Phase::Clear => action == Action::ClearDisplay,
            Phase::Render => action matches Action::Show(text) && text@ == self.grid.rendered(),
            Phase::Advance => action == Action::Pause(GENERATION_DELAY_MS),
        }
    }

    /// The simulation after its next step: the grid moves on by one
    /// generation in the step that ends a round, and in no other.
    pub open spec fn next(self) -> SimulationView {
        match self.phase {
            Phase::Clear => SimulationView { grid: self.grid, phase: Phase::Render },
            Phase::Render => SimulationView { grid: self.grid, phase: Phase::Advance },
            Phase::Advance => SimulationView { grid: self.grid.step(), phase: Phase::Clear },
        }
    }
}

/// A grid and the place in the round at which its simulation stands.
#[derive(Debug, PartialEq, Eq)]
pub struct Simulation {
    grid: Grid,
    phase: Phase,
}

impl View for Simulation {
    type V = SimulationView;

    closed spec fn view(&self) -> SimulationView {
        SimulationView { grid: self.grid@, phase: self.phase }
    }
}

impl Simulation {
    /// A simulation of `grid`, at the start of a round.
    pub fn new(grid: Grid) -> (simulation: Simulation)
        ensures
            simulation@ == (SimulationView { grid: grid@, phase: Phase::Clear }),
    {
        Simulation { grid, phase: Phase::Clear }
    }

    /// A simulation of the grid of `variant`, filled at random, at the start
    /// of a round.
    pub fn start(variant: Variant) -> (simulation: Simulation)
        ensures
            simulation@.phase == Phase::Clear,
            simulation@.grid.size() == variant.side(),
            simulation@.grid.topology == variant.edges(),
            simulation@.grid.rules == variant.table(),
            simulation@.grid.wf(),
    {
        let mut grid = Grid::with_policy(variant.size(), variant.topology(), variant.rules());
        grid.randomize();
        Simulation::new(grid)
    }

    /// The current generation.
    pub fn grid(&self) -> (grid: &Grid)
        ensures
            grid@ == self@.grid,
    {
        &self.grid
    }

    /// The next step of the round.
    pub fn phase(&self) -> (phase: Phase)
        ensures
            phase == self@.phase,
    {
        self.phase
    }

    /// Takes the next step of the round, and says what the driver has to do
    /// for it: in turn clear the display, show the current generation, and
    /// pause, before which the grid moves on by one generation.
    ///
    /// `last` reports how the action of the step before went. A failure is
    /// passed over: the step is the same whatever `last` is.
    #[allow(unused_variables)]
    pub fn step(&mut self, last: Outcome) -> (action: Action)
        ensures
            old(self)@.asks(action),
            final(self)@ == old(self)@.next(),
    {
        match self.phase {
            Phase::Clear => {
                self.phase = Phase::Render;
                Action::ClearDisplay
            },
            Phase::Render => {
                let text = self.grid.render();
                self.phase = Phase::Advance;
                Action::Show(text)
            },
            Phase::Advance => {
                self.grid.advance();
                self.phase = Phase::Clear;
                Action::Pause(GENERATION_DELAY_MS)
            },
        }
    }
}

} // verus!
