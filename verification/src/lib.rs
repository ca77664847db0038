//! A stochastic lattice-simulation engine (Glauber/Ising single-spin-flip
//! dynamics on a 2-D toroidal grid) together with the two-state ownership
//! protocol that hands the engine back and forth between an interactive
//! front end and a background compute loop.
//!
//! All quantities are carried as plain integers: spin interaction energies
//! are whole units, temperature is stored in thousandths, and acceptance
//! probabilities are Q32 binary fractions, so every rule of the engine is
//! stated and proved exactly.

pub mod cells;
pub mod config;
pub mod prob;
pub mod rng;
pub mod simulation;
pub mod worker;
