//! Simulation core of a snake game on a toroidal grid: wrap-around
//! movement with self-collision detection, tail-growth bookkeeping,
//! orientation-correct sprite selection for every body segment, food
//! placement by rejection sampling, and the state machine that gates
//! which parts of the world advance each frame. Rendering, audio, asset
//! loading and raw input devices stay outside; they exchange plain cells,
//! directions and sprite indices with this crate.

pub mod grid;
pub mod snake;
pub mod sprites;
pub mod state;
pub mod input;
pub mod controller;
pub(crate) mod rng;
pub mod world;
