//! Core logic of a four-way intersection traffic simulation.
//!
//! Vehicles spawn on one of four approaches, follow a fixed three-choice
//! route through a shared intersection box, keep a safe following distance
//! from vehicles ahead, and yield to conflicting routes already inside the
//! box.  Positions and speeds are integers in tenths of a pixel, so the
//! whole simulation is exact arithmetic.

pub mod collision;
pub mod config;
pub mod geometry;
pub mod input;
pub mod manager;
mod random;
pub mod simulation;
pub mod statistics;
pub mod types;
pub mod vehicle;

use vstd::prelude::*;

verus! {

} // verus!
