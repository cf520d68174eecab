//! A one-dimensional, two-state cellular automaton on a lattice of 128 cells.
//!
//! Each generation, every cell is rewritten from the pattern formed by its
//! left neighbour, itself and its right neighbour; an 8-bit rule says which
//! cell each of the eight patterns produces.
//!
//! * [`lattice`] describes the lattice and its two concrete forms, a packed
//!   `u128` and a sequence of cells, and converts between them.
//! * [`rule`] reads a rule as a table from patterns to cells.
//! * [`neighborhood`] reads the pattern around a cell, and settles what
//!   stands in for a neighbour beyond either end of the lattice.
//! * [`state`] is the mathematical model of an automaton and of one step.
//! * [`automaton`] is the executable automaton.

pub mod automaton;
pub mod lattice;
pub mod neighborhood;
pub mod rule;
pub mod state;

pub use automaton::{Automaton, AutomatonError};
pub use neighborhood::BoundaryMode;
pub use state::AutomatonState;
