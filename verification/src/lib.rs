//! A falling-sand world: a grid of air, sand and water tiles that is advanced
//! one tick at a time by a column-parallel update kernel.
//!
//! Every executable function of this crate carries a contract over the
//! mathematical model of its data, and Verus proves that the function keeps it.

pub mod conservation;
pub mod driver;
pub mod frame;
pub mod grid;
pub mod kernel;
pub mod laws;
pub mod pacing;
pub mod plane;
pub mod rule;
pub mod text;
pub mod tile;
