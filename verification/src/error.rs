//! The ways in which a run can fail.

use vstd::prelude::*;

verus! {

/// What went wrong. Every kind ends the run at the step where it arises; none
/// is retried.
#[derive(Clone, Copy, Debug, PartialEq, Eq, Structural)]
pub enum ErrorKind {
    /// A numeral held a character that is no digit of its radix, or was empty.
    MalformedNumeral,
    /// The witness generator is missing or cannot be reached.
    GeneratorUnavailable,
    /// The witness generator ran and refused the input, or gave a witness
    /// that does not fit the circuit.
    GeneratorRejected,
    /// Staging the generator's input or reading its output failed.
    IoFailure,
    /// The folding engine refused the step.
    FoldingFailure,
    /// The run was given no step at all.
    EmptyRun,
}

} // verus!
