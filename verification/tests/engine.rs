//! Tests of the lattice, the spin rule, the acceptance probabilities, and
//! the update sweep.

use rand::SeedableRng;
use glauber::cells::{CellGrid, GlauberCell};
use glauber::prob::threshold_q32;
use glauber::simulation::SimulationType;

fn rng(seed: u64) -> rand::rngs::StdRng {
    rand::rngs::StdRng::seed_from_u64(seed)
}

/// A 2x2 grid with every site forced to the given values, row-major.
fn grid_2x2(vals: [GlauberCell; 4]) -> CellGrid<GlauberCell> {
    let mut r = rng(7);
    let mut g = CellGrid::<GlauberCell>::new_random((2, 2), &mut r);
    g.set_cell(0, 0, vals[0]);
    g.set_cell(1, 0, vals[1]);
    g.set_cell(0, 1, vals[2]);
    g.set_cell(1, 1, vals[3]);
    g
}

#[test]
fn wraparound_matches_modular_lookup() {
    let g = grid_2x2([
        GlauberCell::Up,
        GlauberCell::Down,
        GlauberCell::Down,
        GlauberCell::Up,
    ]);
    let (w, h) = g.size();
    for x in 0..w {
        for y in 0..h {
            let n = g.neighbors(x, y);
            for dx in -1i16..=1 {
                for dy in -1i16..=1 {
                    let ex = ((x as i32 + dx as i32 + w as i32) % w as i32) as u16;
                    let ey = ((y as i32 + dy as i32 + h as i32) % h as i32) as u16;
                    assert_eq!(*n.get_cell(dx, dy), *g.get_cell(ex, ey));
                }
            }
        }
    }
}

#[test]
fn wraparound_on_wider_grid() {
    let mut r = rng(21);
    let mut g = CellGrid::<GlauberCell>::new_random((3, 2), &mut r);
    g.set_cell(0, 0, GlauberCell::Up);
    g.set_cell(1, 0, GlauberCell::Down);
    g.set_cell(2, 0, GlauberCell::Up);
    g.set_cell(0, 1, GlauberCell::Down);
    g.set_cell(1, 1, GlauberCell::Up);
    g.set_cell(2, 1, GlauberCell::Down);
    let n = g.neighbors(0, 0);
    // A step of -1 wraps to the far edge on both axes.
    assert_eq!(*n.get_cell(-1, 0), *g.get_cell(2, 0));
    assert_eq!(*n.get_cell(0, -1), *g.get_cell(0, 1));
    assert_eq!(*n.get_cell(1, 1), *g.get_cell(1, 1));
    assert_eq!(*n.get_cell(0, 0), *g.get_cell(0, 0));
}

#[test]
fn set_cell_returns_old_value() {
    let mut g = grid_2x2([
        GlauberCell::Up,
        GlauberCell::Down,
        GlauberCell::Down,
        GlauberCell::Up,
    ]);
    let old = g.set_cell(1, 0, GlauberCell::Up);
    assert_eq!(old, GlauberCell::Down);
    assert_eq!(*g.get_cell(1, 0), GlauberCell::Up);
}

#[test]
fn energy_of_all_up_lattice() {
    // The concrete scenario: on a 2x2 all-up lattice every neighbor read
    // wraps onto up spins, the neighbor sum is +4, and the energies are
    // -4 for up and +4 for down, so a flip costs dE = 8.
    let g = grid_2x2([GlauberCell::Up; 4]);
    let n = g.neighbors(0, 0);
    let e_up = GlauberCell::Up.interaction_energy(&n);
    let e_down = GlauberCell::Down.interaction_energy(&n);
    assert_eq!(e_up, -4);
    assert_eq!(e_down, 4);
    assert_eq!(e_down - e_up, 8);
}

#[test]
fn energy_is_odd_in_the_center_spin() {
    let g = grid_2x2([
        GlauberCell::Up,
        GlauberCell::Down,
        GlauberCell::Up,
        GlauberCell::Down,
    ]);
    for x in 0..2 {
        for y in 0..2 {
            let n = g.neighbors(x, y);
            assert_eq!(
                GlauberCell::Up.interaction_energy(&n),
                -GlauberCell::Down.interaction_energy(&n)
            );
        }
    }
}

#[test]
fn spin_values_and_flip() {
    assert_eq!(GlauberCell::Up.value(), 1);
    assert_eq!(GlauberCell::Down.value(), -1);
    assert_eq!(GlauberCell::Up.flipped(), GlauberCell::Down);
    assert_eq!(GlauberCell::Down.flipped(), GlauberCell::Up);
}

#[test]
fn mutate_is_keep_or_flip() {
    let mut r = rng(3);
    for _ in 0..64 {
        let c = GlauberCell::random(&mut r);
        let m = c.mutate(&mut r);
        assert!(m == c || m == c.flipped());
    }
}

#[test]
fn gamma_corrected_colors() {
    // Up is (113, 58, 255); with gamma 2.2 the exact floors are (42, 9, 255).
    let up = GlauberCell::Up.to_color().correct_gamma().to_rgba();
    assert_eq!(up, [42, 9, 255, 255]);
    // Down is (65, 3, 68); the exact floors are (12, 0, 13).
    let down = GlauberCell::Down.to_color().correct_gamma().to_rgba();
    assert_eq!(down, [12, 0, 13, 255]);
}

#[test]
fn acceptance_threshold_bounds() {
    let one: u64 = 1 << 32;
    // A non-positive energy difference always has the full threshold,
    // whatever the temperature.
    assert_eq!(threshold_q32(0, 1000), one);
    assert_eq!(threshold_q32(0, 1), one);
    assert_eq!(threshold_q32(-5, 777), one);
    assert_eq!(threshold_q32(-1, 1), one);
    // dE = T gives exactly the e^-1 factor.
    assert_eq!(threshold_q32(1, 1000), 1580030168);
    // A huge exponent underflows to an exact zero.
    assert_eq!(threshold_q32(1000000, 1), 0);
    // Thresholds never exceed one.
    for de in 1..50i64 {
        for t in [1u32, 10, 500, 1000, 5000] {
            assert!(threshold_q32(de, t) < one);
        }
    }
}

#[test]
fn acceptance_threshold_tracks_exp() {
    // The scenario's uphill move: dE = 8 at T = 1.0 is accepted with
    // probability exp(-8), about 0.000335.
    let th = threshold_q32(8, 1000);
    let exact = (-8.0f64).exp() * (1u64 << 32) as f64;
    assert!((th as f64 - exact).abs() < 2000.0);
    let p = th as f64 / (1u64 << 32) as f64;
    assert!((p - 0.000335).abs() < 0.00001);
    // A gentler slope: dE = 2 at T = 1.5.
    let th2 = threshold_q32(2, 1500);
    let exact2 = (-2.0f64 / 1.5).exp() * (1u64 << 32) as f64;
    assert!((th2 as f64 - exact2).abs() < 5000.0);
}

#[test]
fn heat_flip_compares_sample_to_threshold() {
    let sim = SimulationType::Ising.create((2, 2));
    // Default temperature is 1.0 (1000 thousandths).
    assert_eq!(sim.temperature(), 1000);
    // dE = 8: the threshold is about 1440801, so a zero sample accepts
    // and a sample far above the threshold rejects.
    assert!(sim.should_heat_flip(8, 0));
    assert!(!sim.should_heat_flip(8, 2_000_000));
    // dE = 0 is below every threshold boundary: always accepted.
    assert!(sim.should_heat_flip(0, u32::MAX));
}

#[test]
fn sweep_performs_width_times_height_trials() {
    let mut sim = SimulationType::Ising.create((4, 3));
    assert_eq!(sim.trials(), 0);
    sim.step();
    assert_eq!(sim.trials(), 12);
    sim.step();
    assert_eq!(sim.trials(), 24);
    let mut tall = SimulationType::Ising.create((1, 7));
    tall.step();
    assert_eq!(tall.trials(), 7);
}

#[test]
fn engine_accessors() {
    let mut sim = SimulationType::Ising.create((5, 7));
    let (w, h) = sim.size();
    assert_eq!((w, h), (5, 7));
    assert_eq!(sim.temperature(), 1000);
    sim.set_temperature(2500);
    assert_eq!(sim.temperature(), 2500);
    assert_eq!(sim.cells().size(), (5, 7));
    assert_eq!(SimulationType::Ising.name(), "Ising");
}

#[test]
fn render_writes_gamma_corrected_rgba() {
    let sim = SimulationType::Ising.create((3, 2));
    let (w, h) = sim.size();
    let mut buf = vec![0u8; w as usize * h as usize * 4];
    sim.render_to(&mut buf);
    for i in 0..(w as usize * h as usize) {
        let x = (i % w as usize) as u16;
        let y = (i / w as usize) as u16;
        let expect = match *sim.cells().get_cell(x, y) {
            GlauberCell::Up => [42, 9, 255, 255],
            GlauberCell::Down => [12, 0, 13, 255],
        };
        assert_eq!(&buf[4 * i..4 * i + 4], &expect);
    }
}

#[test]
fn zero_temperature_rejects_uphill_moves() {
    // At T = 0 the stochastic branch is disabled: out of an all-up
    // lattice every flip proposal costs energy and must be rejected, so
    // the lattice stays frozen, however many trials run.
    let mut sim = SimulationType::Ising.create((2, 2));
    force_all_up(&mut sim);
    sim.set_temperature(0);
    let trials_before = sim.trials();
    for x in 0..2 {
        for y in 0..2 {
            sim.trial_update(x, y, true, 0);
            sim.trial_update(x, y, false, 0);
        }
    }
    assert_eq!(sim.trials(), trials_before + 8);
    assert_eq!(lattice_of(&sim), vec![GlauberCell::Up; 4]);
}

fn lattice_of(sim: &glauber::simulation::Simulation) -> Vec<GlauberCell> {
    let (w, h) = sim.size();
    let mut v = Vec::new();
    for y in 0..h {
        for x in 0..w {
            v.push(*sim.cells().get_cell(x, y));
        }
    }
    v
}

#[test]
fn trial_update_applies_acceptance_rule() {
    // All-up lattice, T = 1.0: flipping (0,0) costs dE = 8; a sample at
    // the top of [0,1) rejects it, a zero sample accepts it.
    let mut sim = SimulationType::Ising.create((2, 2));
    force_all_up(&mut sim);
    sim.trial_update(0, 0, true, u32::MAX);
    assert_eq!(*sim.cells().get_cell(0, 0), GlauberCell::Up);
    sim.trial_update(0, 0, true, 0);
    assert_eq!(*sim.cells().get_cell(0, 0), GlauberCell::Down);
    // Flipping it back is downhill (dE = -8): accepted whatever the sample.
    sim.trial_update(0, 0, true, u32::MAX);
    assert_eq!(*sim.cells().get_cell(0, 0), GlauberCell::Up);
}

/// Drives a lattice to all-up with accepted trials only: at temperature
/// 1.0 a flip proposal with a zero sample is always accepted, so flip any
/// down site once.
fn force_all_up(sim: &mut glauber::simulation::Simulation) {
    let (w, h) = sim.size();
    for y in 0..h {
        for x in 0..w {
            if *sim.cells().get_cell(x, y) == GlauberCell::Down {
                sim.trial_update(x, y, true, 0);
            }
        }
    }
    for y in 0..h {
        for x in 0..w {
            assert_eq!(*sim.cells().get_cell(x, y), GlauberCell::Up);
        }
    }
}
