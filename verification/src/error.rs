//! The error taxonomy of the constraint-system core and the proving
//! pipeline.

use vstd::prelude::*;

verus! {

/// Everything that can go wrong while building a system, extracting its
/// matrices, or driving the proving pipeline.
#[derive(Clone, Copy, Debug, PartialEq, Eq, Structural)]
pub enum R1csError {
    /// A mutating operation was applied to a finalized system, or an
    /// allocation would overflow the witness-vector index range.
    AllocationError,
    /// The witness fails the constraint at the carried row index; the first
    /// violating row is reported.
    UnsatisfiedConstraint(usize),
    /// Matrix extraction was asked of a system without any constraint.
    MatrixExtractionError,
    /// The common reference string could not be derived: the matrices are
    /// empty or too large for the field's evaluation domain.
    SetupError,
    /// The prover refuses to work on an assignment that does not satisfy
    /// the matrices.
    WitnessInconsistencyError,
    /// The verifier was handed group elements or a public input it cannot
    /// accept (a malformed pairing input, or a wrong input count).
    InvalidProofEncoding,
}

} // verus!
