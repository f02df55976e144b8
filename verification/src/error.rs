use vstd::prelude::*;

verus! {

/// The error taxonomy of the vault program. Every validation failure aborts
/// the instruction with exactly one of these kinds; none is retried.
#[derive(Clone, Copy, Debug, PartialEq, Eq, Structural)]
pub enum VaultError {
    /// The account list does not have the instruction's fixed arity.
    NotEnoughAccountKeys,
    /// The owner did not sign, the vault is not owned by the system transfer
    /// authority, or the vault address is not the derived one.
    InvalidAccountOwner,
    /// The vault balance violates a precondition (nonzero at deposit time).
    InvalidAccountData,
    /// The payload has the wrong length or decodes to a rejected amount.
    InvalidInstructionData,
    /// No disambiguation byte yields a program-controlled address.
    DerivationExhausted,
}

} // verus!
