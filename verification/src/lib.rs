//! A vault for native tokens: an owner deposits lamports into an account whose
//! address is derived from the owner's, and later withdraws the whole balance.
//!
//! The library decides; it moves nothing. An instruction is decoded, its
//! accounts are checked, and what comes out is the [`Transfer`] that the host
//! is to carry out, or the reason why there is none.

pub mod account;
pub mod address;
pub mod error;
pub mod instructions;
pub mod lifecycle;
pub mod transfer;

pub use account::Account;
pub use address::{
    address_eq, check_vault_address, derive_vault_address, program_address, system_program,
    vault_address, vault_binding, vault_seeds, Address, ID, VAULT_SEED,
};
pub use error::ProgramError;
pub use instructions::{
    deposit_accounts_check, deposit_amount, deposit_transfer, instruction_outcome,
    instruction_transfer, le_u64, withdraw_accounts_check, withdraw_transfer, Deposit,
    DepositAccounts, DepositInstructionData, Instruction, Withdraw, WithdrawAccounts,
};
pub use transfer::{SignerSeeds, Transfer};

use vstd::prelude::*;

verus! {

/// Takes one call of the program from the raw buffer to the transfer that the
/// host is to carry out. Vault addresses are derived under [`ID`], whatever
/// `_program_id` says.
pub fn process_instruction(
    _program_id: &Address,
    accounts: &[Account],
    instruction_data: &[u8],
) -> (outcome: Result<Transfer, ProgramError>)
    ensures
        outcome == instruction_outcome(accounts@, instruction_data@),
{
    match Instruction::decode(instruction_data, accounts) {
        Ok(mut instruction) => Ok(instruction.process()),
        Err(error) => Err(error),
    }
}

} // verus!
