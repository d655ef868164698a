//! Simulation core of a two-player artillery duel: destructible terrain, a
//! closed-form ballistic model and the turn state machine that ties them.
//!
//! Lengths are integers in milli-pixels (a thousandth of a screen pixel) and
//! times are integers in milliseconds, so every step of the simulation is exact.
pub mod config;
pub mod geometry;
pub mod heightmap;
pub mod terrain;
pub mod ballistics;
pub mod turn;
