//! The two-state ownership protocol that hands the engine back and forth
//! between the interactive side and the background compute side.
//!
//! The protocol is a value-level state machine: every transition consumes
//! the current endpoint and produces the next one, so the engine is
//! reachable from exactly one place at every instant — the hand-off is a
//! full value transfer, never a shared reference. The compute side's
//! activity is represented inside `Simulating`; a host that runs it on a
//! real background thread drives `run_one` there and the protocol's
//! guarantees carry over unchanged. `stop_simulation` always reports the
//! exact number of sweeps performed since the engine was last started, and
//! pausing is a pure re-wrap of the engine value.

use vstd::prelude::*;
use vstd::arithmetic::mul::lemma_mul_is_distributive_add_other_way;
use crate::simulation::Simulation;

verus! {

/// The engine handed back on `stop_simulation`, with the number of sweeps
/// performed since it was last started (zero if it was held paused).
pub type SimulationResult = (Simulation, usize);

/// Where the engine lives while the protocol is in its simulating state.
enum Slot {
    /// The interactive side still owns the engine; no sweeps run.
    Paused(Simulation),
    /// The compute side owns the engine and sweeps it; `sweeps` counts the
    /// sweeps since the hand-off, and `trials_at_start` remembers the
    /// engine's trial counter at the hand-off.
    Running { engine: Simulation, sweeps: usize, trials_at_start: u64 },
}

/// The idle endpoint: no engine is dispatched; the compute side is dormant.
pub struct NotSimulating {
}

/// The dispatched endpoint: the engine is either held paused or owned by
/// the compute side, never both.
pub struct Simulating {
    slot: Slot,
}

/// Creates the idle endpoint of a fresh worker protocol. The compute
/// side performs no work until an engine is dispatched to it.
pub fn create_worker_thread() -> (w: NotSimulating) {
    NotSimulating {}
}

impl NotSimulating {
    /// Dispatches the engine to the compute side: the caller keeps no
    /// access to it, and the sweep count starts at zero.
    pub fn start_simulation(self, simulation: Simulation) -> (s: Simulating)
        requires
            simulation.wf(),
        ensures
            s.wf(),
            !s.is_paused(),
            s.spec_engine() == simulation,
            s.spec_sweeps() == 0,
            s.spec_trials_at_start() == simulation.spec_trials(),
    {
        let trials_at_start = simulation.trials();
        Simulating { slot: Slot::Running { engine: simulation, sweeps: 0, trials_at_start } }
    }

    /// Keeps the engine held paused: a pure re-wrap of the value, with no
    /// message to the compute side; it always succeeds, and the engine
    /// comes back value-identical on `stop_simulation`.
    pub fn pause_simulation(self, simulation: Simulation) -> (s: Simulating)
        requires
            simulation.wf(),
        ensures
            s.wf(),
            s.is_paused(),
            s.spec_engine() == simulation,
            s.spec_sweeps() == 0,
    {
        Simulating { slot: Slot::Paused(simulation) }
    }
}

impl Simulating {
    /// Whether the engine is held paused rather than sweeping.
    pub closed spec fn is_paused(&self) -> bool {
        self.slot is Paused
    }

    /// The engine value this endpoint guards.
    pub closed spec fn spec_engine(&self) -> Simulation {
        match self.slot {
            Slot::Paused(sim) => sim,
            Slot::Running { engine, .. } => engine,
        }
    }

    /// The sweeps performed since the engine was last started.
    pub closed spec fn spec_sweeps(&self) -> usize {
        match self.slot {
            Slot::Paused(_) => 0,
            Slot::Running { sweeps, .. } => sweeps,
        }
    }

    /// The engine's trial counter when it was last started (its current
    /// counter while paused).
    pub closed spec fn spec_trials_at_start(&self) -> u64 {
        match self.slot {
            Slot::Paused(sim) => sim.spec_trials(),
            Slot::Running { trials_at_start, .. } => trials_at_start,
        }
    }

    /// The guarded engine is well formed, and while the compute side runs,
    /// its reported sweep count accounts exactly for the engine's trials:
    /// each sweep performed `width * height` of them.
    pub closed spec fn wf(&self) -> bool {
        &&& self.spec_engine().wf()
        &&& self.spec_engine().spec_trials() == self.spec_trials_at_start()
            + self.spec_sweeps() * (self.spec_engine().spec_width() as int
                * self.spec_engine().spec_height() as int)
    }

    /// One unit of the compute side's work: while the engine is dispatched,
    /// perform one sweep and count it; while it is held paused, do nothing
    /// (the compute side is blocked with no work).
    pub fn run_one(&mut self)
        requires
            old(self).wf(),
            old(self).spec_engine().spec_trials()
                + old(self).spec_engine().spec_width() as int
                    * old(self).spec_engine().spec_height() as int <= u64::MAX,
            old(self).spec_sweeps() + 1 <= usize::MAX,
        ensures
            final(self).wf(),
            final(self).is_paused() == old(self).is_paused(),
            final(self).spec_trials_at_start() == old(self).spec_trials_at_start(),
            old(self).is_paused() ==> *final(self) == *old(self),
            !old(self).is_paused() ==> {
                &&& final(self).spec_sweeps() == old(self).spec_sweeps() + 1
                &&& final(self).spec_engine().spec_width() == old(self).spec_engine().spec_width()
                &&& final(self).spec_engine().spec_height() == old(self).spec_engine().spec_height()
                &&& final(self).spec_engine().spec_temp() == old(self).spec_engine().spec_temp()
                &&& final(self).spec_engine().spec_trials() == old(self).spec_engine().spec_trials()
                    + old(self).spec_engine().spec_width() as int
                        * old(self).spec_engine().spec_height() as int
            },
    {
        match &mut self.slot {
            Slot::Paused(_) => {
            }
            Slot::Running { engine, sweeps, .. } => {
                engine.step();
                proof {
                    lemma_mul_is_distributive_add_other_way(
                        old(self).spec_engine().spec_width() as int
                            * old(self).spec_engine().spec_height() as int,
                        old(self).spec_sweeps() as int,
                        1,
                    );
                }
                *sweeps = *sweeps + 1;
            }
        }
    }

    /// Takes the engine back: the exclusive owner becomes the caller again.
    /// A paused engine comes back value-identical with a sweep count of
    /// zero; a dispatched engine comes back with the exact number of sweeps
    /// performed since `start_simulation`, its trial counter accounting for
    /// every one of them.
    pub fn stop_simulation(self) -> (r: (NotSimulating, SimulationResult))
        requires
            self.wf(),
        ensures
            r.1.0 == self.spec_engine(),
            r.1.1 == self.spec_sweeps(),
            self.is_paused() ==> r.1.1 == 0,
            r.1.0.spec_trials() == self.spec_trials_at_start()
                + r.1.1 * (r.1.0.spec_width() as int * r.1.0.spec_height() as int),
    {
        match self.slot {
            Slot::Paused(sim) => (NotSimulating {}, (sim, 0)),
            Slot::Running { engine, sweeps, .. } => (NotSimulating {}, (engine, sweeps)),
        }
    }
}

} // verus!
