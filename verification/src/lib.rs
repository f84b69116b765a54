//! Random renamable-Horn formulas.
//!
//! A formula is a list of clauses, a clause a list of nonzero signed integers
//! (literals) over the variables `1..=n_vars`. Every clause is first built with
//! at most one positive literal; a random set of variables then has its
//! polarity inverted throughout the formula.
//!
//! The library makes the discrete random choices itself: which variables a
//! clause holds, which literal is made positive, which variables are renamed.
//! What is sampled from real-valued distributions reaches it as whole numbers
//! and truth values: the length of each clause, whether a literal of it is made
//! positive, and the number of variables to rename.

pub mod clause;
pub mod error;
pub mod formula;
pub mod generator;
pub mod length;
pub mod pool;
pub mod random;
pub mod rename;

pub use crate::error::GenerateError;
pub use crate::generator::{generate, ClauseDraw};
