//! A deterministic, message-driven state-update engine for a single entity
//! on a 2-D integer grid: a value type for coordinates, a closed vocabulary
//! of movement commands, and a reducer that maps (state, command) to the
//! next state.

pub mod command;
pub mod geometry;
pub mod reducer;
