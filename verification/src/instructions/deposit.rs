//! Deposit: the owner funds an empty vault.

use crate::account::Account;
use crate::address::{
    check_vault_address, derive_vault_address, system_program, system_program_id, vault_address,
    vault_binding, Address,
};
use crate::error::ProgramError;
use crate::transfer::Transfer;
use vstd::prelude::*;

verus! {

/// What the checks on a deposit's account list come to, where `derived` is
/// what the derivation gave for the first account's address. The list is
/// owner, vault and one more account that only has to be there; a list of
/// any other length is turned down like one that is short. The first check
/// that fails decides; where none does, the vault's bump seed is left.
pub open spec fn deposit_accounts_check(accounts: Seq<Account>, derived: Option<(Address, u8)>)
    -> Result<u8, ProgramError> {
    if accounts.len() != 3 {
        Err(ProgramError::NotEnoughAccountKeys)
    } else if !accounts[0].is_signer {
        Err(ProgramError::InvalidAccountOwner)
    } else if accounts[1].owner@ != system_program() {
        Err(ProgramError::InvalidAccountOwner)
    } else if accounts[1].lamports != 0 {
        Err(ProgramError::InvalidAccountData)
    } else {
        vault_binding(accounts[1].address@, derived)
    }
}

/// The accounts of a deposit, once they have passed every check.
#[derive(Clone, Copy, Debug, PartialEq, Eq)]
pub struct DepositAccounts<'a> {
    /// Who funds the vault; has signed.
    pub owner: &'a Account,
    /// The owner's vault: at the derived address, unclaimed and empty.
    pub vault: &'a Account,
}

impl<'a> DepositAccounts<'a> {
    /// Owner and vault as a deposit's account list names them.
    pub open spec fn of(accounts: &'a [Account]) -> Self {
        DepositAccounts { owner: &accounts@[0], vault: &accounts@[1] }
    }

    /// The last check of a deposit's accounts, made once the vault address
    /// has been derived from the owner's: the account supplied as the vault
    /// must live at that address.
    pub fn bind(owner: &'a Account, vault: &'a Account, derived: Option<(Address, u8)>) -> (bound:
        Result<Self, ProgramError>)
        ensures
            bound == match vault_binding(vault.address@, derived) {
                Ok(_) => Ok::<Self, ProgramError>(DepositAccounts { owner, vault }),
                Err(error) => Err(error),
            },
    {
        match check_vault_address(&vault.address, derived) {
            Ok(_) => Ok(DepositAccounts { owner, vault }),
            Err(error) => Err(error),
        }
    }
}

impl<'a> TryFrom<&'a [Account]> for DepositAccounts<'a> {
    type Error = ProgramError;

    /// Checks the account list of a deposit and picks owner and vault out of
    /// it. The vault's address is derived anew from the owner's and compared
    /// with the one supplied.
    fn try_from(accounts: &'a [Account]) -> (checked: Result<Self, ProgramError>)
        ensures
            match deposit_accounts_check(accounts@, vault_address(accounts@[0].address@)) {
                Ok(_) => checked == Ok::<Self, ProgramError>(Self::of(accounts)),
                Err(error) => checked == Err::<Self, ProgramError>(error),
            },
    {
        if accounts.len() != 3 {
            return Err(ProgramError::NotEnoughAccountKeys);
        }
        let owner = &accounts[0];
        let vault = &accounts[1];
        if !owner.is_signer {
            return Err(ProgramError::InvalidAccountOwner);
        }
        if !vault.owned_by(&system_program_id()) {
            return Err(ProgramError::InvalidAccountOwner);
        }
        if vault.lamports != 0 {
            return Err(ProgramError::InvalidAccountData);
        }
        Self::bind(owner, vault, derive_vault_address(&owner.address))
    }
}

impl<'a> vstd::std_specs::convert::TryFromSpecImpl<&'a [Account]> for DepositAccounts<'a> {
    open spec fn obeys_try_from_spec() -> bool {
        true
    }

    open spec fn try_from_spec(accounts: &'a [Account]) -> Result<Self, ProgramError> {
        match deposit_accounts_check(accounts@, vault_address(accounts@[0].address@)) {
            Ok(_) => Ok(Self::of(accounts)),
            Err(error) => Err(error),
        }
    }
}

/// The number that eight bytes spell, least significant byte first.
pub open spec fn le_u64(bytes: Seq<u8>) -> nat
    recommends
        bytes.len() == 8,
{
    (bytes[0] + 0x100 * bytes[1] + 0x1_0000 * bytes[2] + 0x100_0000 * bytes[3] + 0x1_0000_0000
        * bytes[4] + 0x100_0000_0000 * bytes[5] + 0x1_0000_0000_0000 * bytes[6]
        + 0x100_0000_0000_0000 * bytes[7]) as nat
}

/// The amount that a deposit's operand stands for: exactly eight bytes, a
/// little-endian number that is not zero. Anything else is no operand.
pub open spec fn deposit_amount(operand: Seq<u8>) -> Result<u64, ProgramError> {
    if operand.len() == 8 && le_u64(operand) != 0 {
        Ok(le_u64(operand) as u64)
    } else {
        Err(ProgramError::InvalidInstructionData)
    }
}

/// The operand of a deposit.
#[derive(Clone, Copy, Debug, PartialEq, Eq, Structural)]
pub struct DepositInstructionData {
    /// How many lamports go into the vault; never zero.
    pub amount: u64,
}

impl<'a> TryFrom<&'a [u8]> for DepositInstructionData {
    type Error = ProgramError;

    /// Reads the operand of a deposit. No amount is too large to be read:
    /// what the owner can pay is the host's to see.
    fn try_from(data: &'a [u8]) -> (parsed: Result<Self, ProgramError>)
        ensures
            parsed is Ok <==> data@.len() == 8 && le_u64(data@) != 0,
            parsed matches Ok(operand) ==> operand.amount == le_u64(data@),
            parsed matches Err(error) ==> error == ProgramError::InvalidInstructionData,
    {
        if data.len() != 8 {
            return Err(ProgramError::InvalidInstructionData);
        }
        let amount: u64 = (data[0] as u64) + 0x100 * (data[1] as u64) + 0x1_0000 * (data[2] as u64)
            + 0x100_0000 * (data[3] as u64) + 0x1_0000_0000 * (data[4] as u64) + 0x100_0000_0000
            * (data[5] as u64) + 0x1_0000_0000_0000 * (data[6] as u64) + 0x100_0000_0000_0000 * (
        data[7] as u64);
        if amount == 0 {
            return Err(ProgramError::InvalidInstructionData);
        }
        Ok(DepositInstructionData { amount })
    }
}

impl<'a> vstd::std_specs::convert::TryFromSpecImpl<&'a [u8]> for DepositInstructionData {
    open spec fn obeys_try_from_spec() -> bool {
        true
    }

    open spec fn try_from_spec(data: &'a [u8]) -> Result<Self, ProgramError> {
        match deposit_amount(data@) {
            Ok(amount) => Ok(DepositInstructionData { amount }),
            Err(error) => Err(error),
        }
    }
}

/// The transfer that a deposit comes to, or why there is none: the accounts
/// are checked first, then the operand, so that where both are at fault the
/// accounts decide the error.
pub open spec fn deposit_transfer(
    operand: Seq<u8>,
    accounts: Seq<Account>,
    derived: Option<(Address, u8)>,
) -> Result<Transfer, ProgramError> {
    match deposit_accounts_check(accounts, derived) {
        Err(error) => Err(error),
        Ok(_) => match deposit_amount(operand) {
            Err(error) => Err(error),
            Ok(amount) => Ok(
                Transfer {
                    from: accounts[0].address,
                    to: accounts[1].address,
                    lamports: amount,
                    signer_seeds: None,
                },
            ),
        },
    }
}

/// A deposit into a vault that holds something is always turned down: a
/// vault is funded once and never topped up. Where the list has its three
/// accounts, the owner has signed and no program has claimed the vault, the
/// balance is what the deposit is turned down for.
pub proof fn lemma_deposit_needs_empty_vault(
    operand: Seq<u8>,
    accounts: Seq<Account>,
    derived: Option<(Address, u8)>,
)
    requires
        accounts.len() >= 2,
        accounts[1].lamports != 0,
    ensures
        deposit_transfer(operand, accounts, derived) is Err,
        accounts.len() == 3 && accounts[0].is_signer && accounts[1].owner@ == system_program()
            ==> deposit_transfer(operand, accounts, derived) == Err::<Transfer, ProgramError>(
            ProgramError::InvalidAccountData,
        ),
{
}

/// A deposit whose owner has not signed is turned down for that.
pub proof fn lemma_deposit_needs_signature(
    operand: Seq<u8>,
    accounts: Seq<Account>,
    derived: Option<(Address, u8)>,
)
    requires
        accounts.len() == 3,
        !accounts[0].is_signer,
    ensures
        deposit_transfer(operand, accounts, derived) == Err::<Transfer, ProgramError>(
            ProgramError::InvalidAccountOwner,
        ),
{
}

/// A deposit into an account that is not at the address derived from the
/// owner's is always turned down; where the list has its three accounts and
/// the account is empty, it is turned down as not being the owner's vault.
pub proof fn lemma_deposit_binds_vault_address(
    operand: Seq<u8>,
    accounts: Seq<Account>,
    address: Address,
    bump: u8,
)
    requires
        accounts.len() >= 2,
        accounts[1].address@ != address@,
    ensures
        deposit_transfer(operand, accounts, Some((address, bump))) is Err,
        accounts.len() == 3 && accounts[1].lamports == 0 ==> deposit_transfer(
            operand,
            accounts,
            Some((address, bump)),
        ) == Err::<Transfer, ProgramError>(ProgramError::InvalidAccountOwner),
{
}

/// A deposit whose accounts pass is turned down for its operand exactly
/// where that is not eight bytes long or spells zero.
pub proof fn lemma_deposit_needs_amount(
    operand: Seq<u8>,
    accounts: Seq<Account>,
    derived: Option<(Address, u8)>,
)
    requires
        deposit_accounts_check(accounts, derived) is Ok,
    ensures
        operand.len() != 8 || le_u64(operand) == 0 <==> deposit_transfer(
            operand,
            accounts,
            derived,
        ) == Err::<Transfer, ProgramError>(ProgramError::InvalidInstructionData),
        operand.len() == 8 && le_u64(operand) != 0 ==> deposit_transfer(operand, accounts, derived)
            is Ok && deposit_transfer(operand, accounts, derived)->Ok_0.lamports == le_u64(
            operand,
        ),
{
}

/// A deposit that is ready to be carried out.
#[derive(Clone, Copy, Debug, PartialEq, Eq)]
pub struct Deposit<'a> {
    /// The accounts, checked.
    pub accounts: DepositAccounts<'a>,
    /// The operand, checked.
    pub instruction_data: DepositInstructionData,
}

impl<'a> Deposit<'a> {
    /// The leading byte of a deposit instruction.
    pub const DISCRIMINATOR: &'a u8 = &0;

    /// The deposit of `amount` that an account list stands for.
    pub open spec fn of(accounts: &'a [Account], amount: u64) -> Self {
        Deposit {
            accounts: DepositAccounts::of(accounts),
            instruction_data: DepositInstructionData { amount },
        }
    }

    /// The transfer that the deposit asks for.
    pub open spec fn transfer(self) -> Transfer {
        Transfer {
            from: self.accounts.owner.address,
            to: self.accounts.vault.address,
            lamports: self.instruction_data.amount,
            signer_seeds: None,
        }
    }

    /// The transfer of a deposit: the amount moves from the owner, who has
    /// signed, to the vault. Whether the owner holds that much is the host's
    /// to see; nothing here looks at the owner's balance.
    pub fn process(&mut self) -> (transfer: Transfer)
        ensures
            *final(self) == *old(self),
            transfer == old(self).transfer(),
    {
        Transfer {
            from: self.accounts.owner.address,
            to: self.accounts.vault.address,
            lamports: self.instruction_data.amount,
            signer_seeds: None,
        }
    }
}

impl<'a> TryFrom<(&'a [u8], &'a [Account])> for Deposit<'a> {
    type Error = ProgramError;

    /// Checks a deposit, operand and accounts given in that order.
    fn try_from(parts: (&'a [u8], &'a [Account])) -> (checked: Result<Self, ProgramError>)
        ensures
            match deposit_transfer(parts.0@, parts.1@, vault_address(parts.1@[0].address@)) {
                Err(error) => checked == Err::<Self, ProgramError>(error),
                Ok(transfer) => checked == Ok::<Self, ProgramError>(
                    Self::of(parts.1, transfer.lamports),
                ),
            },
    {
        let (data, accounts) = parts;
        let accounts = match DepositAccounts::try_from(accounts) {
            Ok(accounts) => accounts,
            Err(error) => return Err(error),
        };
        let instruction_data = match DepositInstructionData::try_from(data) {
            Ok(instruction_data) => instruction_data,
            Err(error) => return Err(error),
        };
        Ok(Deposit { accounts, instruction_data })
    }
}

impl<'a> vstd::std_specs::convert::TryFromSpecImpl<(&'a [u8], &'a [Account])> for Deposit<'a> {
    open spec fn obeys_try_from_spec() -> bool {
        true
    }

    open spec fn try_from_spec(parts: (&'a [u8], &'a [Account])) -> Result<Self, ProgramError> {
        match deposit_transfer(parts.0@, parts.1@, vault_address(parts.1@[0].address@)) {
            Err(error) => Err(error),
            Ok(transfer) => Ok(Self::of(parts.1, transfer.lamports)),
        }
    }
}

} // verus!
