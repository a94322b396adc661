//! Decision core of a fixed-timestep arcade shooter.
//!
//! Everything here works on plain values: key states, liveness flags, tick
//! counts and signs. Screen geometry, trajectories and drawing are measured in
//! real numbers and live with the program that drives this library.

pub mod collision;
pub mod data;
pub mod game;
pub mod input;
pub mod menu;
pub mod sheet;
pub mod timing;
pub mod view;
