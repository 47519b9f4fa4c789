//! The two operations of the vault, and the decoding of an instruction into
//! one of them.

pub mod deposit;
pub mod withdraw;

pub use deposit::{
    deposit_accounts_check, deposit_amount, deposit_transfer, le_u64, Deposit, DepositAccounts,
    DepositInstructionData,
};
pub use withdraw::{withdraw_accounts_check, withdraw_transfer, Withdraw, WithdrawAccounts};

use crate::account::Account;
use crate::address::{vault_address, Address};
use crate::error::ProgramError;
use crate::transfer::Transfer;
use vstd::prelude::*;

verus! {

/// An instruction that has been decoded and whose accounts have been checked.
#[derive(Clone, Copy, Debug, PartialEq, Eq)]
pub enum Instruction<'a> {
    /// Discriminator 0, then the amount.
    Deposit(Deposit<'a>),
    /// Discriminator 1; whatever follows it is not read.
    Withdraw(Withdraw<'a>),
}

/// The transfer that an instruction comes to, or why there is none, where
/// `derived` is what the derivation gave for the first account's address.
/// The first byte of the buffer selects the operation and the rest is its
/// operand; an empty buffer and any other first byte are turned down.
pub open spec fn instruction_transfer(
    accounts: Seq<Account>,
    instruction_data: Seq<u8>,
    derived: Option<(Address, u8)>,
) -> Result<Transfer, ProgramError> {
    if instruction_data.len() == 0 {
        Err(ProgramError::InvalidInstructionData)
    } else if instruction_data[0] == *Deposit::DISCRIMINATOR {
        deposit_transfer(
            instruction_data.subrange(1, instruction_data.len() as int),
            accounts,
            derived,
        )
    } else if instruction_data[0] == *Withdraw::DISCRIMINATOR {
        withdraw_transfer(accounts, derived)
    } else {
        Err(ProgramError::InvalidInstructionData)
    }
}

/// What one call of the program comes to: the transfer that the instruction
/// asks for, or why there is none, with the vault address derived from the
/// first account's.
pub open spec fn instruction_outcome(accounts: Seq<Account>, instruction_data: Seq<u8>) -> Result<
    Transfer,
    ProgramError,
> {
    instruction_transfer(accounts, instruction_data, vault_address(accounts[0].address@))
}

impl<'a> Instruction<'a> {
    /// The transfer that the instruction asks for.
    pub open spec fn transfer(self) -> Transfer {
        match self {
            Instruction::Deposit(deposit) => deposit.transfer(),
            Instruction::Withdraw(withdraw) => withdraw.transfer(),
        }
    }

    /// What a buffer and an account list decode to, with the vault address
    /// derived from the first account's.
    pub open spec fn decoded(instruction_data: &'a [u8], accounts: &'a [Account]) -> Result<
        Self,
        ProgramError,
    > {
        let derived = vault_address(accounts@[0].address@);
        if instruction_data@.len() == 0 {
            Err(ProgramError::InvalidInstructionData)
        } else if instruction_data@[0] == *Deposit::DISCRIMINATOR {
            match deposit_transfer(
                instruction_data@.subrange(1, instruction_data@.len() as int),
                accounts@,
                derived,
            ) {
                Err(error) => Err(error),
                Ok(transfer) => Ok(Instruction::Deposit(Deposit::of(accounts, transfer.lamports))),
            }
        } else if instruction_data@[0] == *Withdraw::DISCRIMINATOR {
            match withdraw_accounts_check(accounts@, derived) {
                Err(error) => Err(error),
                Ok(bump) => Ok(Instruction::Withdraw(Withdraw::of(accounts, bump))),
            }
        } else {
            Err(ProgramError::InvalidInstructionData)
        }
    }

    /// Decodes the instruction buffer and checks the accounts against the
    /// operation that it names.
    pub fn decode(instruction_data: &'a [u8], accounts: &'a [Account]) -> (decoded: Result<
        Self,
        ProgramError,
    >)
        ensures
            decoded == Self::decoded(instruction_data, accounts),
            match decoded {
                Ok(instruction) => Ok::<Transfer, ProgramError>(instruction.transfer()),
                Err(error) => Err(error),
            } == instruction_outcome(accounts@, instruction_data@),
    {
        if instruction_data.len() == 0 {
            return Err(ProgramError::InvalidInstructionData);
        }
        let (discriminator, operand) = instruction_data.split_at(1);
        if discriminator[0] == *Deposit::DISCRIMINATOR {
            match Deposit::try_from((operand, accounts)) {
                Ok(deposit) => Ok(Instruction::Deposit(deposit)),
                Err(error) => Err(error),
            }
        } else if discriminator[0] == *Withdraw::DISCRIMINATOR {
            match Withdraw::try_from(accounts) {
                Ok(withdraw) => Ok(Instruction::Withdraw(withdraw)),
                Err(error) => Err(error),
            }
        } else {
            Err(ProgramError::InvalidInstructionData)
        }
    }

    /// The transfer of the instruction, whichever operation it is.
    pub fn process(&mut self) -> (transfer: Transfer)
        ensures
            *final(self) == *old(self),
            transfer == old(self).transfer(),
    {
        match self {
            Instruction::Deposit(deposit) => deposit.process(),
            Instruction::Withdraw(withdraw) => withdraw.process(),
        }
    }
}

} // verus!
