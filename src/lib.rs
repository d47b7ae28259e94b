//! A Biham–Middleton–Levine traffic automaton on a torus, with a diagonal
//! shear and tide-driven reseeding, verified with Verus.

pub mod grid;
pub mod random;
pub mod tide;
pub mod model;
pub mod counting;
pub mod laws;
