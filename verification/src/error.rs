use vstd::prelude::*;

verus! {

/// The fatal ways a single execution step can fail. None of these is
/// recoverable mid-instruction: each aborts the current step and is
/// surfaced to the caller with the machine left unchanged.
#[derive(Clone, Copy, Debug, PartialEq, Eq)]
pub enum ExecutionError {
    /// The fetched opcode has no assigned operation.
    IllegalOpcode,
    /// DIV or DIVC was executed with a divisor of zero.
    DivideByZero,
    /// A memory access reached beyond the allocated region.
    OutOfBounds,
    /// A register index outside 0..=31. Decoding masks every register
    /// field to five bits, so this cannot arise from a fetched word;
    /// the kind is retained as a defensive invariant check.
    InvalidRegisterIndex,
}

} // verus!
