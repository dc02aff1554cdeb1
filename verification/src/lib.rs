//! A discrete-time, grid-based population and terrain simulation.
//!
//! A fixed-size two-dimensional map of cells is generated with uniformly
//! random terrain, relaxed into coherent biomes by repeated neighbor-majority
//! smoothing passes, seeded with population, and then advanced tick by tick
//! under probabilistic growth, migration and shrink rules.

pub mod cell;
pub mod grid;
pub mod rng;
pub mod rules;
pub mod sim;
