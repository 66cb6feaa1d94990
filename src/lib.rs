//! Simulation core of a virtual cat companion: bounded drives and affinities,
//! an emotion automaton, the per-minute update and the behavior oracle.
//!
//! Every drive and affinity is held as an integer number of tenths of a point,
//! so that `0..=1000` stands for `0.0..=100.0` and every increment is exact.

pub mod level;

pub mod physiological;
pub mod relationship;
pub mod emotion;
pub mod clock;
pub mod state;
pub mod behavior;
pub mod laws;
pub mod thought;
pub mod llm;
pub mod fence;
