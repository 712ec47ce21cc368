//! The engine's failure taxonomy. Every operation reports failure
//! synchronously and mutates nothing when it fails.

use vstd::prelude::*;

verus! {

/// Why an engine operation was refused.
#[derive(Clone, Copy, Debug, PartialEq, Eq, Structural)]
pub enum EngineError {
    /// A qubit index at or beyond the register size, a control equal to its
    /// target, or a gate kind the single-qubit path does not recognize.
    InvalidArgument,
    /// A gate kind the circuit model records but the evolution engine does
    /// not implement (the controlled-RZ placeholder).
    Unsupported,
}

} // verus!
