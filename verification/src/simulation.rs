//! The simulation engine: a lattice of spin sites, a temperature in
//! thousandths, a random source, and the Metropolis-like update sweep.
//!
//! One `step` performs exactly `width * height` single-site trial updates,
//! each at a uniformly random site drawn with replacement; the engine counts
//! every trial it performs. Each trial is a deterministic, fully specified
//! function of the drawn values, so the update rule itself is verified and
//! only the draws are trusted.

use vstd::prelude::*;
use vstd::arithmetic::mul::lemma_mul_upper_bound;
use crate::cells::{CellGrid, GlauberCell, spec_energy, spec_flipped, spec_neighbor_sum};
use crate::config::{MAX_WIDTH, MAX_HEIGHT, DEFAULT_TEMP_MILLI};
use crate::prob::{spec_accepts, spec_threshold, threshold_q32};
use crate::rng::{seed_rng, draw_seed, draw_below, draw_bool, draw_sample};

verus! {

/// The engine: exclusively owned by whichever side currently drives it.
pub struct Simulation {
    cells: CellGrid<GlauberCell>,
    temp_milli: u32,
    rng: rand::rngs::StdRng,
    trial_count: u64,
}

/// The energy difference of proposing `flip` at `(x, y)`: the candidate's
/// interaction energy minus the current one, against the same neighbors.
pub open spec fn spec_trial_de(cells: Seq<GlauberCell>, w: int, h: int, x: int, y: int, flip: bool) -> int {
    let cur = cells[y * w + x];
    let cand = if flip { spec_flipped(cur) } else { cur };
    let ns = spec_neighbor_sum(cells, w, h, x, y);
    spec_energy(cand, ns) - spec_energy(cur, ns)
}

impl Simulation {
    pub closed spec fn spec_lattice(&self) -> Seq<GlauberCell> {
        self.cells@
    }

    pub closed spec fn spec_width(&self) -> u16 {
        self.cells.spec_width()
    }

    pub closed spec fn spec_height(&self) -> u16 {
        self.cells.spec_height()
    }

    pub closed spec fn spec_temp(&self) -> u32 {
        self.temp_milli
    }

    pub closed spec fn spec_trials(&self) -> u64 {
        self.trial_count
    }

    pub closed spec fn spec_cells(&self) -> CellGrid<GlauberCell> {
        self.cells
    }

    pub open spec fn wf(&self) -> bool {
        self.spec_cells().wf()
    }

    /// The lattice, read-only.
    pub fn cells(&self) -> (g: &CellGrid<GlauberCell>)
        ensures
            *g == self.spec_cells(),
    {
        &self.cells
    }

    /// The lattice's `(width, height)`.
    pub fn size(&self) -> (s: (u16, u16))
        ensures
            s.0 == self.spec_width(),
            s.1 == self.spec_height(),
    {
        self.cells.size()
    }

    /// The temperature, in thousandths.
    pub fn temperature(&self) -> (t: u32)
        ensures
            t == self.spec_temp(),
    {
        self.temp_milli
    }

    /// Sets the temperature, in thousandths; nothing else changes.
    pub fn set_temperature(&mut self, temp_milli: u32)
        ensures
            final(self).spec_temp() == temp_milli,
            final(self).spec_lattice() == old(self).spec_lattice(),
            final(self).spec_cells() == old(self).spec_cells(),
            final(self).spec_width() == old(self).spec_width(),
            final(self).spec_height() == old(self).spec_height(),
            final(self).spec_trials() == old(self).spec_trials(),
            final(self).wf() == old(self).wf(),
    {
        self.temp_milli = temp_milli;
    }

    /// How many single-site trial updates this engine has performed.
    pub fn trials(&self) -> (n: u64)
        ensures
            n == self.spec_trials(),
    {
        self.trial_count
    }

    /// Whether an uphill trial is accepted by the heat bath: the Q32 sample
    /// must fall strictly below the acceptance threshold `e^(-ΔE/T)`.
    pub fn should_heat_flip(&self, energy_diff: i64, sample: u32) -> (r: bool)
        requires
            self.spec_temp() >= 1,
            (energy_diff as int) * 1000 <= u64::MAX,
        ensures
            r == ((sample as int) < spec_threshold(energy_diff as int, self.spec_temp() as int)),
    {
        (sample as u64) < threshold_q32(energy_diff, self.temp_milli)
    }

    /// One single-site trial update at `(x, y)` from the drawn values: the
    /// proposal is the opposite spin when `flip` holds (and the value
    /// unchanged otherwise), and it is written back exactly when the
    /// acceptance rule fires for the drawn Q32 `sample`.
    pub fn trial_update(&mut self, x: u16, y: u16, flip: bool, sample: u32)
        requires
            old(self).wf(),
            x < old(self).spec_width(),
            y < old(self).spec_height(),
            old(self).spec_trials() < u64::MAX,
        ensures
            final(self).wf(),
            final(self).spec_width() == old(self).spec_width(),
            final(self).spec_height() == old(self).spec_height(),
            final(self).spec_temp() == old(self).spec_temp(),
            final(self).spec_trials() == old(self).spec_trials() + 1,
            ({
                let w = old(self).spec_width() as int;
                let h = old(self).spec_height() as int;
                let cells = old(self).spec_lattice();
                let cur = cells[y as int * w + x as int];
                let cand = if flip { spec_flipped(cur) } else { cur };
                let de = spec_trial_de(cells, w, h, x as int, y as int, flip);
                if spec_accepts(de, old(self).spec_temp() as int, sample as int) {
                    final(self).spec_lattice() == cells.update(y as int * w + x as int, cand)
                } else {
                    final(self).spec_lattice() == cells
                }
            }),
    {
        let cur: GlauberCell = *self.cells.get_cell(x, y);
        let cand: GlauberCell = if flip { cur.flipped() } else { cur };
        let e_new: i64;
        let e_cur: i64;
        {
            let nb = self.cells.neighbors(x, y);
            e_new = cand.interaction_energy(&nb);
            e_cur = cur.interaction_energy(&nb);
        }
        let de: i64 = e_new - e_cur;
        let accept: bool = if de < 0 {
            true
        } else if self.temp_milli > 0 {
            self.should_heat_flip(de, sample)
        } else {
            false
        };
        if accept {
            let _old = self.cells.set_cell(x, y, cand);
        }
        self.trial_count = self.trial_count + 1;
    }

    /// One full sweep: exactly `width * height` independent trial updates,
    /// each at a uniformly random site drawn with replacement (so some sites
    /// may be visited several times and others not at all). The lattice
    /// size, the temperature, and well-formedness are preserved, and the
    /// trial counter grows by exactly `width * height`.
    pub fn step(&mut self)
        requires
            old(self).wf(),
            old(self).spec_trials() + old(self).spec_width() as int * old(self).spec_height() as int <= u64::MAX,
        ensures
            final(self).wf(),
            final(self).spec_width() == old(self).spec_width(),
            final(self).spec_height() == old(self).spec_height(),
            final(self).spec_temp() == old(self).spec_temp(),
            final(self).spec_trials() == old(self).spec_trials()
                + old(self).spec_width() as int * old(self).spec_height() as int,
            final(self).spec_lattice().len() == old(self).spec_lattice().len(),
    {
        let s = self.cells.size();
        let w = s.0;
        let h = s.1;
        proof {
            lemma_mul_upper_bound(w as int, 65534, h as int, 65534);
        }
        let n: u64 = (w as u64) * (h as u64);
        let mut i: u64 = 0;
        while i < n
            invariant
                i <= n,
                n == w as int * h as int,
                self.wf(),
                self.spec_width() == w,
                self.spec_height() == h,
                self.spec_temp() == old(self).spec_temp(),
                self.spec_trials() == old(self).spec_trials() + i,
                old(self).spec_trials() + n <= u64::MAX,
                self.spec_lattice().len() == old(self).spec_lattice().len(),
            decreases n - i,
        {
            proof {
                if w == 0 || h == 0 {
                    assert(n == 0);
                }
            }
            let x = draw_below(&mut self.rng, w);
            let y = draw_below(&mut self.rng, h);
            let flip = draw_bool(&mut self.rng);
            let sample = draw_sample(&mut self.rng);
            self.trial_update(x, y, flip, sample);
            i = i + 1;
        }
    }

    /// Writes the gamma-corrected RGBA color of every lattice site, in
    /// row-major order, into a caller-provided pixel buffer of exactly
    /// `width * height * 4` bytes. The engine itself is not mutated.
    pub fn render_to(&self, sink: &mut Vec<u8>)
        requires
            self.wf(),
            old(sink)@.len() == self.spec_width() as int * self.spec_height() as int * 4,
        ensures
            final(sink)@.len() == old(sink)@.len(),
            forall|i: int| 0 <= i < self.spec_width() as int * self.spec_height() as int
                ==> #[trigger] pixel_ok(self.spec_lattice(), final(sink)@, i),
    {
        let s = self.cells.size();
        let w = s.0;
        let h = s.1;
        proof {
            lemma_mul_upper_bound(w as int, 65534, h as int, 65534);
        }
        let total: usize = sink.len();
        let n: u64 = (w as u64) * (h as u64);
        let mut i: u64 = 0;
        while i < n
            invariant
                i <= n,
                n == w as int * h as int,
                self.wf(),
                self.spec_width() == w,
                self.spec_height() == h,
                sink@.len() == total,
                total == n * 4,
                forall|j: int| 0 <= j < i ==> #[trigger] pixel_ok(self.spec_lattice(), sink@, j),
            decreases n - i,
        {
            proof {
                if w == 0 {
                    assert(n == 0);
                }
                vstd::arithmetic::div_mod::lemma_fundamental_div_mod(i as int, w as int);
                vstd::arithmetic::div_mod::lemma_mod_division_less_than_divisor(i as int, w as int);
                lemma_multiply_divide_lt_wrap(i as int, w as int, h as int);
            }
            let x: u16 = (i % (w as u64)) as u16;
            let y: u16 = (i / (w as u64)) as u16;
            let c: GlauberCell = *self.cells.get_cell(x, y);
            let rgba = c.to_color().correct_gamma().to_rgba();
            let ghost prev = sink@;
            let base: usize = 4 * (i as usize);
            sink[base] = rgba[0];
            sink[base + 1] = rgba[1];
            sink[base + 2] = rgba[2];
            sink[base + 3] = rgba[3];
            proof {
                assert(y as int * w as int + x as int == i as int);
                assert forall|j: int| 0 <= j < i + 1 implies
                    #[trigger] pixel_ok(self.spec_lattice(), sink@, j) by {
                    if j < i as int {
                        assert(pixel_ok(self.spec_lattice(), prev, j));
                        assert(sink@[4 * j] == prev[4 * j]);
                        assert(sink@[4 * j + 1] == prev[4 * j + 1]);
                        assert(sink@[4 * j + 2] == prev[4 * j + 2]);
                        assert(sink@[4 * j + 3] == prev[4 * j + 3]);
                    } else {
                        assert(sink@[4 * i as int] == rgba@[0]);
                        assert(sink@[4 * i as int + 1] == rgba@[1]);
                        assert(sink@[4 * i as int + 2] == rgba@[2]);
                        assert(sink@[4 * i as int + 3] == rgba@[3]);
                    }
                }
            }
            i = i + 1;
        }
    }
}

/// `i < w * h` gives `i / w < h`.
proof fn lemma_multiply_divide_lt_wrap(i: int, w: int, h: int)
    requires
        0 < w,
        i < w * h,
        0 <= i,
    ensures
        i / w < h,
{
    vstd::arithmetic::div_mod::lemma_multiply_divide_lt(i, w, h);
}

/// The four bytes of site `i` hold the gamma-corrected RGBA color of the
/// site's value, alpha fixed at 255.
pub open spec fn pixel_ok(cells: Seq<GlauberCell>, buf: Seq<u8>, i: int) -> bool {
    &&& 0 <= 4 * i + 3 < buf.len()
    &&& 0 <= i < cells.len()
    &&& ({
        let c = cells[i];
        let r = if c == GlauberCell::Up { 113int } else { 65int };
        let g = if c == GlauberCell::Up { 58int } else { 3int };
        let b = if c == GlauberCell::Up { 255int } else { 68int };
        &&& crate::cells::gamma_rel(r, buf[4 * i] as int)
        &&& crate::cells::gamma_rel(g, buf[4 * i + 1] as int)
        &&& crate::cells::gamma_rel(b, buf[4 * i + 2] as int)
        &&& buf[4 * i + 3] == 255
    })
}

/// Which simulation rule to run; selected when a new engine is created.
#[derive(Copy, Clone, PartialEq, Eq, Structural, Debug)]
pub enum SimulationType {
    Ising,
}

impl SimulationType {
    /// A fresh engine of this rule: a randomly initialized lattice of the
    /// given size, the default temperature, and no trials performed yet.
    pub fn create(&self, size: (u16, u16)) -> (sim: Simulation)
        requires
            size.0 < MAX_WIDTH,
            size.1 < MAX_HEIGHT,
        ensures
            sim.wf(),
            sim.spec_width() == size.0,
            sim.spec_height() == size.1,
            sim.spec_temp() == DEFAULT_TEMP_MILLI,
            sim.spec_trials() == 0,
    {
        let mut rng = seed_rng(draw_seed());
        match self {
            SimulationType::Ising => {
                let cells = CellGrid::<GlauberCell>::new_random(size, &mut rng);
                Simulation { cells, temp_milli: DEFAULT_TEMP_MILLI, rng, trial_count: 0 }
            }
        }
    }

    /// The display name of this rule.
    pub fn name(&self) -> (n: &'static str)
        ensures
            n@ == "Ising"@,
    {
        "Ising"
    }
}

} // verus!
