//! The toroidal lattice of site values, its wraparound neighbor view, and the
//! built-in two-state (up/down) spin rule.
//!
//! Interaction energies of the spin rule are whole numbers (a spin is +1 or
//! -1), so the energy rule is stated and proved exactly. Display colors use
//! gamma exponent 2.2 = 11/5; a corrected channel value `r` for input `v` is
//! pinned by the integer relation `r^5 * 255^6 <= v^11 < (r+1)^5 * 255^6`,
//! the exact floor of `255 * (v/255)^(11/5)`.

use vstd::prelude::*;
use vstd::arithmetic::mul::lemma_mul_upper_bound;
use crate::config::{MAX_WIDTH, MAX_HEIGHT};
use crate::rng::draw_bool;

verus! {

/// Toroidal wraparound of coordinate `c` shifted by `d` on an axis of
/// length `n`: `(c + d + n) % n`, so a step of `-1` from `0` lands on `n - 1`.
pub open spec fn wrap(c: int, d: int, n: int) -> int {
    (c + d + n) % n
}

/// A row-major index `y * w + x` stays inside a `w * h` grid.
pub proof fn lemma_row_major(x: int, y: int, w: int, h: int)
    requires
        0 <= x < w,
        0 <= y < h,
    ensures
        0 <= y * w + x < w * h,
{
    assert(0 <= y * w + x < w * h) by (nonlinear_arith)
        requires
            0 <= x < w,
            0 <= y < h,
    ;
}

/// Wrapping by a zero offset is the identity.
pub proof fn lemma_wrap_zero(c: int, n: int)
    requires
        0 <= c < n,
    ensures
        wrap(c, 0, n) == c,
{
    vstd::arithmetic::div_mod::lemma_mod_add_multiples_vanish(c, n);
    vstd::arithmetic::div_mod::lemma_small_mod(c as nat, n as nat);
}

/// `x^5`.
pub open spec fn pow5(x: int) -> int {
    x * x * x * x * x
}

/// `x^11`.
pub open spec fn pow11(x: int) -> int {
    x * x * x * x * x * x * x * x * x * x * x
}

/// `255^6`, the denominator of the exact gamma relation.
pub const GAMMA_DEN: u128 = 274941996890625;

/// `r` is the gamma-corrected value of channel `v` (gamma exponent 2.2):
/// `r = floor(255 * (v/255)^(11/5))`, stated as an exact integer relation.
pub open spec fn gamma_rel(v: int, r: int) -> bool {
    &&& 0 <= r <= 255
    &&& pow5(r) * (GAMMA_DEN as int) <= pow11(v)
    &&& r < 255 ==> pow11(v) < pow5(r + 1) * (GAMMA_DEN as int)
}

/// `x^5` for a channel-sized base.
fn pow5_u128(x: u128) -> (r: u128)
    requires
        x <= 256,
    ensures
        r == pow5(x as int),
        r <= 0x100_0000_0000,
{
    proof {
        lemma_mul_upper_bound(x as int, 256, x as int, 256);
    }
    let a: u128 = x * x;
    proof {
        lemma_mul_upper_bound(a as int, 0x10000, x as int, 256);
    }
    let b: u128 = a * x;
    proof {
        lemma_mul_upper_bound(b as int, 0x1000000, x as int, 256);
    }
    let c: u128 = b * x;
    proof {
        lemma_mul_upper_bound(c as int, 0x100000000, x as int, 256);
    }
    c * x
}

/// `x^11` for a channel-sized base.
fn pow11_u128(x: u128) -> (r: u128)
    requires
        x <= 255,
    ensures
        r == pow11(x as int),
{
    let p5 = pow5_u128(x);
    proof {
        lemma_mul_upper_bound(p5 as int, 0x100_0000_0000, x as int, 255);
    }
    let p6: u128 = p5 * x;
    proof {
        lemma_mul_upper_bound(p6 as int, 0xff00_0000_0000, x as int, 255);
    }
    let p7: u128 = p6 * x;
    proof {
        lemma_mul_upper_bound(p7 as int, 0xfe01_0000_0000_00, x as int, 255);
    }
    let p8: u128 = p7 * x;
    proof {
        lemma_mul_upper_bound(p8 as int, 0xfd02_ff00_0000_0000, x as int, 255);
    }
    let p9: u128 = p8 * x;
    proof {
        lemma_mul_upper_bound(p9 as int, 0xfc05_fc01_0000_0000_00, x as int, 255);
    }
    let p10: u128 = p9 * x;
    proof {
        lemma_mul_upper_bound(p10 as int, 0xfb09_f604_ff00_0000_0000, x as int, 255);
    }
    p10 * x
}

/// Exact gamma correction of one channel: the greatest `r` with
/// `r^5 * 255^6 <= v^11`.
fn gamma_channel(v: u8) -> (r: u8)
    ensures
        gamma_rel(v as int, r as int),
{
    let target = pow11_u128(v as u128);
    let mut y: u16 = 0;
    while y < 255
        invariant
            y <= 255,
            pow5(y as int) * (GAMMA_DEN as int) <= pow11(v as int),
            target == pow11(v as int),
        ensures
            y <= 255,
            pow5(y as int) * (GAMMA_DEN as int) <= pow11(v as int),
            y < 255 ==> pow11(v as int) < pow5(y as int + 1) * (GAMMA_DEN as int),
        decreases 255 - y,
    {
        let p5 = pow5_u128((y + 1) as u128);
        proof {
            lemma_mul_upper_bound(p5 as int, 0x100_0000_0000, GAMMA_DEN as int, GAMMA_DEN as int);
        }
        let lhs: u128 = p5 * GAMMA_DEN;
        if target < lhs {
            break;
        }
        y = y + 1;
    }
    y as u8
}

/// An sRGB color; the alpha channel is fixed at 255 on output.
pub struct Color(u8, u8, u8);

impl Color {
    pub closed spec fn spec_r(&self) -> u8 {
        self.0
    }

    pub closed spec fn spec_g(&self) -> u8 {
        self.1
    }

    pub closed spec fn spec_b(&self) -> u8 {
        self.2
    }

    /// The four display bytes of this color, alpha fixed at 255.
    pub fn to_rgba(&self) -> (r: [u8; 4])
        ensures
            r@ == seq![self.spec_r(), self.spec_g(), self.spec_b(), 255u8],
    {
        let r = [self.0, self.1, self.2, 255];
        proof {
            assert(r@ =~= seq![self.spec_r(), self.spec_g(), self.spec_b(), 255u8]);
        }
        r
    }

    /// Gamma-corrects every channel with exponent 2.2, rounding down.
    pub fn correct_gamma(&self) -> (c: Color)
        ensures
            gamma_rel(self.spec_r() as int, c.spec_r() as int),
            gamma_rel(self.spec_g() as int, c.spec_g() as int),
            gamma_rel(self.spec_b() as int, c.spec_b() as int),
    {
        Color(gamma_channel(self.0), gamma_channel(self.1), gamma_channel(self.2))
    }
}

/// The capability every site value offers: random initialization, a proposed
/// mutation, a scalar interaction energy against the four orthogonal
/// neighbors, and a display color.
pub trait Cell: Sized {
    /// A randomly initialized site value.
    fn random(rng: &mut rand::rngs::StdRng) -> Self;

    /// A proposed new value for this site; proposing the value unchanged is
    /// a legitimate outcome.
    fn mutate(&self, rng: &mut rand::rngs::StdRng) -> Self;

    /// The interaction energy of this value against its neighbor view, in
    /// whole energy units.
    fn interaction_energy(&self, neighbors: &Neighbors<Self>) -> i64
        requires
            neighbors.wf(),
    ;

    /// The display color of this value.
    fn to_color(&self) -> Color;
}

/// A fixed-size 2-D toroidal grid of site values, stored row-major.
/// The size never changes after construction.
pub struct CellGrid<C> {
    size: (u16, u16),
    cells: Vec<C>,
}

impl<C> View for CellGrid<C> {
    type V = Seq<C>;

    closed spec fn view(&self) -> Seq<C> {
        self.cells@
    }
}

impl<C> CellGrid<C> {
    pub closed spec fn spec_width(&self) -> u16 {
        self.size.0
    }

    pub closed spec fn spec_height(&self) -> u16 {
        self.size.1
    }

    /// The grid holds exactly one value per site and fits the size bounds.
    pub open spec fn wf(&self) -> bool {
        &&& self@.len() == self.spec_width() as int * self.spec_height() as int
        &&& self.spec_width() < MAX_WIDTH
        &&& self.spec_height() < MAX_HEIGHT
    }

    /// The grid's `(width, height)`.
    pub fn size(&self) -> (s: (u16, u16))
        ensures
            s.0 == self.spec_width(),
            s.1 == self.spec_height(),
    {
        self.size
    }
}

impl<C: Cell> CellGrid<C> {
    /// A fresh grid of the given size, every site drawn by the rule's
    /// random initializer, row-major.
    pub fn new_random(size: (u16, u16), random: &mut rand::rngs::StdRng) -> (g: Self)
        requires
            size.0 < MAX_WIDTH,
            size.1 < MAX_HEIGHT,
        ensures
            g.wf(),
            g.spec_width() == size.0,
            g.spec_height() == size.1,
    {
        proof {
            lemma_mul_upper_bound(size.0 as int, 65534, size.1 as int, 65534);
        }
        let n: u32 = (size.0 as u32) * (size.1 as u32);
        let mut cells: Vec<C> = Vec::new();
        let mut i: u32 = 0;
        while i < n
            invariant
                i <= n,
                cells@.len() == i,
                n == size.0 as int * size.1 as int,
            decreases n - i,
        {
            cells.push(C::random(random));
            i = i + 1;
        }
        CellGrid { size, cells }
    }
}

impl<C> CellGrid<C> {
    /// The lazy wraparound accessor for the four neighbors of `(x, y)`.
    pub fn neighbors(&self, x: u16, y: u16) -> (n: Neighbors<C>)
        requires
            self.wf(),
            x < self.spec_width(),
            y < self.spec_height(),
        ensures
            n.wf(),
            n.spec_grid() == *self,
            n.spec_x() == x,
            n.spec_y() == y,
    {
        Neighbors { grid: self, cell: (x, y) }
    }

    /// The site value at `(x, y)`; coordinates must be in range.
    pub fn get_cell(&self, x: u16, y: u16) -> (c: &C)
        requires
            self.wf(),
            x < self.spec_width(),
            y < self.spec_height(),
        ensures
            *c == self@[y as int * self.spec_width() as int + x as int],
    {
        proof {
            lemma_row_major(x as int, y as int, self.size.0 as int, self.size.1 as int);
            lemma_mul_upper_bound(self.size.0 as int, 65534, self.size.1 as int, 65534);
            assert(y as usize as int * (self.size.0 as usize) as int
                == y as int * self.size.0 as int);
        }
        let idx: usize = y as usize * self.size.0 as usize + x as usize;
        &self.cells[idx]
    }

    /// Replaces the site value at `(x, y)`, returning the old value.
    pub fn set_cell(&mut self, x: u16, y: u16, new: C) -> (old_c: C)
        requires
            old(self).wf(),
            x < old(self).spec_width(),
            y < old(self).spec_height(),
        ensures
            final(self).wf(),
            final(self).spec_width() == old(self).spec_width(),
            final(self).spec_height() == old(self).spec_height(),
            final(self)@ == old(self)@.update(
                y as int * old(self).spec_width() as int + x as int, new),
            old_c == old(self)@[y as int * old(self).spec_width() as int + x as int],
    {
        proof {
            lemma_row_major(x as int, y as int, self.size.0 as int, self.size.1 as int);
            lemma_mul_upper_bound(self.size.0 as int, 65534, self.size.1 as int, 65534);
            assert(y as usize as int * (self.size.0 as usize) as int
                == y as int * self.size.0 as int);
        }
        let idx: usize = y as usize * self.size.0 as usize + x as usize;
        let mut c = new;
        core::mem::swap(&mut c, &mut self.cells[idx]);
        c
    }
}

/// A read-only view of the four orthogonal neighbors of a center site,
/// with toroidal wraparound; it never outlives the grid borrow.
pub struct Neighbors<'a, C> {
    grid: &'a CellGrid<C>,
    cell: (u16, u16),
}

impl<'a, C> Neighbors<'a, C> {
    pub closed spec fn spec_grid(&self) -> CellGrid<C> {
        *self.grid
    }

    pub closed spec fn spec_x(&self) -> u16 {
        self.cell.0
    }

    pub closed spec fn spec_y(&self) -> u16 {
        self.cell.1
    }

    /// The center lies on the grid and the grid is well formed.
    pub open spec fn wf(&self) -> bool {
        &&& self.spec_grid().wf()
        &&& self.spec_x() < self.spec_grid().spec_width()
        &&& self.spec_y() < self.spec_grid().spec_height()
    }

    /// The site value one step `(x, y)` away from the center, wrapping
    /// around every edge: the value at
    /// `((cx + x + width) % width, (cy + y + height) % height)`.
    pub fn get_cell(&self, x: i16, y: i16) -> (c: &C)
        requires
            self.wf(),
            -1 <= x <= 1,
            -1 <= y <= 1,
        ensures
            *c == self.spec_grid()@[
                wrap(self.spec_y() as int, y as int, self.spec_grid().spec_height() as int)
                    * self.spec_grid().spec_width() as int
                    + wrap(self.spec_x() as int, x as int, self.spec_grid().spec_width() as int)],
    {
        let size = self.grid.size();
        let w: u32 = size.0 as u32;
        let h: u32 = size.1 as u32;
        let xs: u32 = ((self.cell.0 as i32) + (x as i32) + (w as i32)) as u32 % w;
        let ys: u32 = ((self.cell.1 as i32) + (y as i32) + (h as i32)) as u32 % h;
        self.grid.get_cell(xs as u16, ys as u16)
    }
}

/// The two-state magnetic spin rule (Glauber/Ising dynamics): a site is
/// either spin up (+1) or spin down (-1).
#[derive(Copy, Clone, PartialEq, Eq, Structural, Debug)]
pub enum GlauberCell {
    Up,
    Down,
}

/// The spin of a site value: +1 for up, -1 for down.
pub open spec fn spec_spin(c: GlauberCell) -> int {
    match c {
        GlauberCell::Up => 1,
        GlauberCell::Down => -1,
    }
}

/// The opposite spin.
pub open spec fn spec_flipped(c: GlauberCell) -> GlauberCell {
    match c {
        GlauberCell::Up => GlauberCell::Down,
        GlauberCell::Down => GlauberCell::Up,
    }
}

/// The sum of the four orthogonal neighbor spins of `(x, y)` on a toroidal
/// `w` by `h` grid held row-major in `cells`.
pub open spec fn spec_neighbor_sum(cells: Seq<GlauberCell>, w: int, h: int, x: int, y: int) -> int {
    spec_spin(cells[wrap(y, 1, h) * w + x])
        + spec_spin(cells[wrap(y, -1, h) * w + x])
        + spec_spin(cells[y * w + wrap(x, 1, w)])
        + spec_spin(cells[y * w + wrap(x, -1, w)])
}

/// The spin rule's interaction energy: `-spin * (sum of neighbor spins)`.
pub open spec fn spec_energy(c: GlauberCell, neighbor_sum: int) -> int {
    -spec_spin(c) * neighbor_sum
}

/// The spin rule's energy is odd in the center spin: flipping the center
/// negates the energy, whatever the neighbors hold.
pub proof fn lemma_energy_symmetry(neighbor_sum: int)
    ensures
        spec_energy(GlauberCell::Up, neighbor_sum)
            == -spec_energy(GlauberCell::Down, neighbor_sum),
{
    assert(spec_spin(GlauberCell::Up) == 1);
    assert(spec_spin(GlauberCell::Down) == -1);
    assert(spec_energy(GlauberCell::Up, neighbor_sum) == -1 * neighbor_sum);
    assert(spec_energy(GlauberCell::Down, neighbor_sum) == 1 * neighbor_sum);
}

impl GlauberCell {
    /// The spin as an integer: +1 or -1.
    pub fn value(&self) -> (v: i64)
        ensures
            v == spec_spin(*self),
    {
        match self {
            GlauberCell::Up => 1,
            GlauberCell::Down => -1,
        }
    }

    /// The site value with the opposite spin.
    pub fn flipped(&self) -> (r: Self)
        ensures
            r == spec_flipped(*self),
    {
        match self {
            GlauberCell::Up => GlauberCell::Down,
            GlauberCell::Down => GlauberCell::Up,
        }
    }

    /// A uniformly random spin.
    pub fn random(rng: &mut rand::rngs::StdRng) -> Self {
        if draw_bool(rng) {
            GlauberCell::Up
        } else {
            GlauberCell::Down
        }
    }

    /// A proposed new value: the opposite spin with probability one half,
    /// otherwise the value unchanged.
    pub fn mutate(&self, rng: &mut rand::rngs::StdRng) -> (r: Self)
        ensures
            r == *self || r == spec_flipped(*self),
    {
        if draw_bool(rng) {
            self.flipped()
        } else {
            *self
        }
    }

    /// The interaction energy against the four orthogonal neighbors,
    /// `-spin * (sum of neighbor spins)`; always within `[-4, 4]`.
    pub fn interaction_energy(&self, neighbors: &Neighbors<GlauberCell>) -> (e: i64)
        requires
            neighbors.wf(),
        ensures
            e == spec_energy(*self, spec_neighbor_sum(
                neighbors.spec_grid()@,
                neighbors.spec_grid().spec_width() as int,
                neighbors.spec_grid().spec_height() as int,
                neighbors.spec_x() as int,
                neighbors.spec_y() as int)),
            -4 <= e <= 4,
    {
        proof {
            lemma_wrap_zero(neighbors.spec_x() as int, neighbors.spec_grid().spec_width() as int);
            lemma_wrap_zero(neighbors.spec_y() as int, neighbors.spec_grid().spec_height() as int);
        }
        let sum: i64 = neighbors.get_cell(0, 1).value()
            + neighbors.get_cell(0, -1).value()
            + neighbors.get_cell(1, 0).value()
            + neighbors.get_cell(-1, 0).value();
        let v = self.value();
        if v >= 0 {
            -sum
        } else {
            sum
        }
    }

    /// The display color of the spin.
    pub fn to_color(&self) -> (c: Color)
        ensures
            *self == GlauberCell::Up ==> c.spec_r() == 113 && c.spec_g() == 58 && c.spec_b() == 255,
            *self == GlauberCell::Down ==> c.spec_r() == 65 && c.spec_g() == 3 && c.spec_b() == 68,
    {
        match self {
            GlauberCell::Up => Color(113, 58, 255),
            GlauberCell::Down => Color(65, 3, 68),
        }
    }
}

impl Cell for GlauberCell {
    fn random(rng: &mut rand::rngs::StdRng) -> Self {
        GlauberCell::random(rng)
    }

    fn mutate(&self, rng: &mut rand::rngs::StdRng) -> Self {
        GlauberCell::mutate(self, rng)
    }

    fn interaction_energy(&self, neighbors: &Neighbors<Self>) -> i64 {
        GlauberCell::interaction_energy(self, neighbors)
    }

    fn to_color(&self) -> Color {
        GlauberCell::to_color(self)
    }
}

} // verus!
