//! Process-wide configuration constants for the simulation engine.

use vstd::prelude::*;

verus! {

/// Lattice dimensions must be strictly below this bound.
pub const MAX_WIDTH: u16 = 65535;

/// Lattice dimensions must be strictly below this bound.
pub const MAX_HEIGHT: u16 = 65535;

/// Default lattice width for a fresh simulation.
pub const DEFAULT_WIDTH: u16 = 100;

/// Default lattice height for a fresh simulation.
pub const DEFAULT_HEIGHT: u16 = 100;

/// Default temperature, in thousandths (1000 = 1.0).
pub const DEFAULT_TEMP_MILLI: u32 = 1000;

} // verus!
