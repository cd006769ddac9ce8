use vstd::prelude::*;

verus! {

/// The constraint that a satisfiability check found violated.
#[derive(Clone, Copy, Debug, PartialEq, Eq, Structural)]
pub enum Failure {
    /// Gate `gate` is nonzero on row `row`, whose selector is on.
    Gate { gate: usize, row: usize },
    /// The copy constraint with this index joins cells of different values,
    /// or a cell of a column without equality.
    Copy { index: usize },
    /// The public input at this row differs from the cell bound to it.
    Instance { row: usize },
}

/// What can go wrong while laying out or checking a circuit.
#[derive(Clone, Copy, Debug, PartialEq, Eq, Structural)]
pub enum Error {
    /// A witness value is not known (a pass without witnesses).
    ValueUnavailable,
    /// A cell was bound to a row beyond the instance column.
    InstanceRowOutOfRange { row: usize },
    /// The table needs more rows than `2^k`.
    NotEnoughRows { needed: usize, k: u32 },
    /// The public inputs do not have as many entries as the instance column.
    PublicInputLengthMismatch { expected: usize, found: usize },
    /// A gate, copy or instance constraint does not hold.
    ConstraintUnsatisfied(Failure),
}

} // verus!
