//! Tests of the worker protocol: exclusive hand-off, exact sweep counts,
//! and pause as a pure re-wrap.

use glauber::cells::GlauberCell;
use glauber::simulation::{Simulation, SimulationType};
use glauber::worker::create_worker_thread;

fn lattice_of(sim: &Simulation) -> Vec<GlauberCell> {
    let (w, h) = sim.size();
    let mut v = Vec::new();
    for y in 0..h {
        for x in 0..w {
            v.push(*sim.cells().get_cell(x, y));
        }
    }
    v
}

#[test]
fn pause_is_a_pure_rewrap() {
    let mut sim = SimulationType::Ising.create((4, 4));
    sim.set_temperature(2345);
    let lattice = lattice_of(&sim);
    let trials = sim.trials();
    let paused = create_worker_thread().pause_simulation(sim);
    let (_idle, (back, sweeps)) = paused.stop_simulation();
    assert_eq!(sweeps, 0);
    assert_eq!(back.size(), (4, 4));
    assert_eq!(back.temperature(), 2345);
    assert_eq!(back.trials(), trials);
    assert_eq!(lattice_of(&back), lattice);
}

#[test]
fn repeated_pause_keeps_the_engine_identical() {
    let sim = SimulationType::Ising.create((3, 5));
    let lattice = lattice_of(&sim);
    let mut worker = create_worker_thread();
    let mut engine = sim;
    for _ in 0..5 {
        let running = worker.pause_simulation(engine);
        let (idle, (back, sweeps)) = running.stop_simulation();
        assert_eq!(sweeps, 0);
        worker = idle;
        engine = back;
    }
    assert_eq!(lattice_of(&engine), lattice);
    assert_eq!(engine.trials(), 0);
}

#[test]
fn stop_counts_the_sweeps_performed() {
    let sim = SimulationType::Ising.create((4, 3));
    let mut running = create_worker_thread().start_simulation(sim);
    for _ in 0..5 {
        running.run_one();
    }
    let (_idle, (back, sweeps)) = running.stop_simulation();
    assert_eq!(sweeps, 5);
    // Every sweep is width * height trials, and the engine's own counter
    // accounts for all of them.
    assert_eq!(back.trials(), 5 * 12);
}

#[test]
fn start_after_stop_counts_afresh() {
    let sim = SimulationType::Ising.create((2, 2));
    let mut running = create_worker_thread().start_simulation(sim);
    running.run_one();
    running.run_one();
    let (idle, (engine, sweeps)) = running.stop_simulation();
    assert_eq!(sweeps, 2);
    assert_eq!(engine.trials(), 8);
    let mut running = idle.start_simulation(engine);
    running.run_one();
    let (_idle, (engine, sweeps)) = running.stop_simulation();
    assert_eq!(sweeps, 1);
    assert_eq!(engine.trials(), 12);
}

#[test]
fn random_protocol_sequences_report_exact_counts() {
    // Drive an arbitrary mix of start/pause/stop transitions and check
    // that every stop reports exactly the sweeps performed since the last
    // start, and that the engine's trial counter tracks them all.
    let mut engine = SimulationType::Ising.create((3, 3));
    let mut idle = create_worker_thread();
    let mut total_sweeps: u64 = 0;
    let mut choice: u32 = 0x2545_f491;
    for round in 0..40 {
        choice = choice.wrapping_mul(1664525).wrapping_add(1013904223);
        let start = choice & 1 == 0;
        let pumps = (round % 4) as usize;
        let running = if start {
            idle.start_simulation(engine)
        } else {
            idle.pause_simulation(engine)
        };
        let mut running = running;
        for _ in 0..pumps {
            running.run_one();
        }
        let (next_idle, (back, sweeps)) = running.stop_simulation();
        if start {
            assert_eq!(sweeps, pumps);
            total_sweeps += pumps as u64;
        } else {
            assert_eq!(sweeps, 0);
        }
        assert_eq!(back.trials(), total_sweeps * 9);
        idle = next_idle;
        engine = back;
    }
}

#[test]
fn paused_engine_ignores_pump_requests() {
    let sim = SimulationType::Ising.create((2, 3));
    let lattice = lattice_of(&sim);
    let mut paused = create_worker_thread().pause_simulation(sim);
    for _ in 0..3 {
        paused.run_one();
    }
    let (_idle, (back, sweeps)) = paused.stop_simulation();
    assert_eq!(sweeps, 0);
    assert_eq!(back.trials(), 0);
    assert_eq!(lattice_of(&back), lattice);
}
