//! The ways in which an instruction is turned down.

use vstd::prelude::*;

verus! {

/// Why an instruction was not carried out. Every kind is final: nothing is
/// retried, and the host discards whatever the invocation did.
#[derive(Clone, Copy, Debug, PartialEq, Eq, Structural)]
pub enum ProgramError {
    /// Fewer accounts were supplied than the operation takes.
    NotEnoughAccountKeys,
    /// The owner did not sign, the vault is not held by the system program, or
    /// the vault's address is not the one derived from the owner.
    InvalidAccountOwner,
    /// The vault's balance does not allow the operation.
    InvalidAccountData,
    /// An empty buffer, an unknown discriminator, or a deposit operand of the
    /// wrong length or of amount zero.
    InvalidInstructionData,
    /// Every bump seed was tried and none gives the owner a vault address. The
    /// invocation cannot go on; a caller treats this as fatal.
    DerivationExhausted,
}

} // verus!
