use vstd::prelude::*;

verus! {

/// The program's own refusals: the time gates of the instructions.
#[derive(Clone, Copy, Debug, PartialEq, Eq, Structural)]
pub enum EscrowError {
    /// "Cannot claim before the review window and grace period have elapsed"
    TooEarlyToClaim,
    /// "Cannot be canceled before deadline"
    TooEarlyToCancel,
    /// "Cannot set to complete when deadline passed."
    TooLateToSetToComplete,
}

/// Why an instruction is refused: one of the account constraints that guard
/// it before its body runs, or one of the program's own errors.
#[derive(Clone, Copy, Debug, PartialEq, Eq, Structural)]
pub enum InstructionError {
    /// The signer is not the party that the escrow names.
    ConstraintHasOne,
    /// The escrow is not in a status that the instruction accepts.
    ConstraintRaw,
    /// The escrow account is not at the address derived from its seeds.
    ConstraintSeeds,
    /// A time gate of the program.
    Escrow(EscrowError),
}

} // verus!
