//! Conway's Game of Life on a square grid, and a variant with a third,
//! absorbing cell state.
//!
//! The grid's topology (bounded or wrapping) and its transition rules
//! (three-state or classic) are chosen when a grid is made. Every function is
//! specified over [`model::GridView`], the mathematical model of a grid.

pub mod cell;
pub mod policy;
pub mod model;
pub mod chance;
pub mod grid;
pub mod laws;
pub mod simulation;
