//! A small arithmetic circuit for a sum-of-squares recurrence, laid out as a
//! table of three advice columns, one selector and one instance column, with
//! a satisfiability check over the filled table.

pub mod field;
pub mod table;
pub mod error;
pub mod chip;
pub mod circuit;
pub mod check;
pub mod laws;
