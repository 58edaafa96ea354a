//! The rule-keeping core of a particle-life sandbox: keyed collections of
//! simulated objects, the particle type table, the signal protocol between the
//! user interface and the simulation loop, frame-rate bookkeeping and the
//! colour palettes that objects draw from.

pub mod globals;
pub mod palette;
pub mod physics_types;
pub mod collector;
pub mod sim;
pub mod util;
pub mod ui;
