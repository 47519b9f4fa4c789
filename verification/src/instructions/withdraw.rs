//! Withdraw: the owner takes the whole balance of the vault back.

use crate::account::Account;
use crate::address::{
    check_vault_address, derive_vault_address, system_program, system_program_id, vault_address,
    vault_binding, vault_seeds, Address, VAULT_SEED,
};
use crate::error::ProgramError;
use crate::transfer::{SignerSeeds, Transfer};
use vstd::prelude::*;

verus! {

/// What the checks on a withdrawal's account list come to, where `derived` is
/// what the derivation gave for the first account's address. The list starts
/// with owner and vault; what follows them is not looked at. The first check
/// that fails decides; where none does, the vault's bump seed is left.
pub open spec fn withdraw_accounts_check(accounts: Seq<Account>, derived: Option<(Address, u8)>)
    -> Result<u8, ProgramError> {
    if accounts.len() < 2 {
        Err(ProgramError::NotEnoughAccountKeys)
    } else if !accounts[0].is_signer {
        Err(ProgramError::InvalidAccountOwner)
    } else {
        match vault_binding(accounts[1].address@, derived) {
            Err(error) => Err(error),
            Ok(bump) => if accounts[1].owner@ != system_program() {
                Err(ProgramError::InvalidAccountOwner)
            } else {
                Ok(bump)
            },
        }
    }
}

/// The transfer that a withdrawal comes to, or why there is none: the whole
/// balance of the vault goes to the owner, and the program signs for the
/// vault with the seeds of its derivation. An empty vault is no fault: the
/// transfer then moves nothing.
pub open spec fn withdraw_transfer(accounts: Seq<Account>, derived: Option<(Address, u8)>)
    -> Result<Transfer, ProgramError> {
    match withdraw_accounts_check(accounts, derived) {
        Err(error) => Err(error),
        Ok(bump) => Ok(
            Transfer {
                from: accounts[1].address,
                to: accounts[0].address,
                lamports: accounts[1].lamports,
                signer_seeds: Some(
                    SignerSeeds { tag: VAULT_SEED, owner: accounts[0].address, bump },
                ),
            },
        ),
    }
}

/// A withdrawal from an account that is not at the address derived from the
/// owner's is turned down as not being the owner's vault.
pub proof fn lemma_withdraw_binds_vault_address(accounts: Seq<Account>, address: Address, bump: u8)
    requires
        accounts.len() >= 2,
        accounts[1].address@ != address@,
    ensures
        withdraw_transfer(accounts, Some((address, bump))) == Err::<Transfer, ProgramError>(
            ProgramError::InvalidAccountOwner,
        ),
{
}

/// A withdrawal that is not turned down pays out of the address that was
/// derived, and signs with the very seeds of that derivation, bump seed last.
pub proof fn lemma_withdraw_signs_with_vault_seeds(
    accounts: Seq<Account>,
    derived: Option<(Address, u8)>,
)
    requires
        withdraw_transfer(accounts, derived) is Ok,
    ensures
        derived is Some,
        ({
            let (address, bump) = derived->Some_0;
            let transfer = withdraw_transfer(accounts, derived)->Ok_0;
            &&& transfer.from@ == address@
            &&& transfer.signer_seeds is Some
            &&& transfer.signer_seeds->Some_0@ == vault_seeds(accounts[0].address@).push(
                seq![bump],
            )
        }),
{
    let (address, bump) = derived->Some_0;
    let transfer = withdraw_transfer(accounts, derived)->Ok_0;
    assert(transfer.signer_seeds->Some_0@ =~= vault_seeds(accounts[0].address@).push(seq![bump]));
}

/// The accounts of a withdrawal, once they have passed every check, with
/// what the transfer out of the vault needs besides.
#[derive(Clone, Copy, Debug, PartialEq, Eq)]
pub struct WithdrawAccounts<'a> {
    /// Who takes the balance; has signed.
    pub owner: &'a Account,
    /// The owner's vault: at the derived address, and unclaimed.
    pub vault: &'a Account,
    /// The balance of the vault when it was checked.
    pub lamports: u64,
    /// The bump seed of the vault's address.
    pub bump: u8,
}

impl<'a> WithdrawAccounts<'a> {
    /// Owner and vault as a withdrawal's account list names them, with the
    /// vault's balance and the bump seed `bump`.
    pub open spec fn of(accounts: &'a [Account], bump: u8) -> Self {
        WithdrawAccounts {
            owner: &accounts@[0],
            vault: &accounts@[1],
            lamports: accounts@[1].lamports,
            bump,
        }
    }

    /// The checks of a withdrawal's accounts that are made once the vault
    /// address has been derived from the owner's: the account supplied as the
    /// vault must live at that address, and no program may have claimed it.
    /// What comes out carries the vault's balance and the bump seed.
    pub fn bind(owner: &'a Account, vault: &'a Account, derived: Option<(Address, u8)>) -> (bound:
        Result<Self, ProgramError>)
        ensures
            bound == match vault_binding(vault.address@, derived) {
                Err(error) => Err::<Self, ProgramError>(error),
                Ok(bump) => if vault.owner@ != system_program() {
                    Err(ProgramError::InvalidAccountOwner)
                } else {
                    Ok(WithdrawAccounts { owner, vault, lamports: vault.lamports, bump })
                },
            },
    {
        let bump = match check_vault_address(&vault.address, derived) {
            Ok(bump) => bump,
            Err(error) => return Err(error),
        };
        if !vault.owned_by(&system_program_id()) {
            return Err(ProgramError::InvalidAccountOwner);
        }
        Ok(WithdrawAccounts { owner, vault, lamports: vault.lamports, bump })
    }
}

impl<'a> TryFrom<&'a [Account]> for WithdrawAccounts<'a> {
    type Error = ProgramError;

    /// Checks the account list of a withdrawal and picks owner and vault out
    /// of it, with the vault's balance and bump seed.
    fn try_from(accounts: &'a [Account]) -> (checked: Result<Self, ProgramError>)
        ensures
            match withdraw_accounts_check(accounts@, vault_address(accounts@[0].address@)) {
                Err(error) => checked == Err::<Self, ProgramError>(error),
                Ok(bump) => checked == Ok::<Self, ProgramError>(Self::of(accounts, bump)),
            },
    {
        if accounts.len() < 2 {
            return Err(ProgramError::NotEnoughAccountKeys);
        }
        let owner = &accounts[0];
        let vault = &accounts[1];
        if !owner.is_signer {
            return Err(ProgramError::InvalidAccountOwner);
        }
        Self::bind(owner, vault, derive_vault_address(&owner.address))
    }
}

impl<'a> vstd::std_specs::convert::TryFromSpecImpl<&'a [Account]> for WithdrawAccounts<'a> {
    open spec fn obeys_try_from_spec() -> bool {
        true
    }

    open spec fn try_from_spec(accounts: &'a [Account]) -> Result<Self, ProgramError> {
        match withdraw_accounts_check(accounts@, vault_address(accounts@[0].address@)) {
            Err(error) => Err(error),
            Ok(bump) => Ok(Self::of(accounts, bump)),
        }
    }
}

/// A withdrawal that is ready to be carried out.
#[derive(Clone, Copy, Debug, PartialEq, Eq)]
pub struct Withdraw<'a> {
    /// The accounts, checked.
    pub accounts: WithdrawAccounts<'a>,
}

impl<'a> Withdraw<'a> {
    /// The leading byte of a withdraw instruction.
    pub const DISCRIMINATOR: &'a u8 = &1;

    /// The withdrawal that an account list stands for, with bump seed `bump`.
    pub open spec fn of(accounts: &'a [Account], bump: u8) -> Self {
        Withdraw { accounts: WithdrawAccounts::of(accounts, bump) }
    }

    /// The transfer that the withdrawal asks for.
    pub open spec fn transfer(self) -> Transfer {
        Transfer {
            from: self.accounts.vault.address,
            to: self.accounts.owner.address,
            lamports: self.accounts.lamports,
            signer_seeds: Some(
                SignerSeeds {
                    tag: VAULT_SEED,
                    owner: self.accounts.owner.address,
                    bump: self.accounts.bump,
                },
            ),
        }
    }

    /// The transfer of a withdrawal: the balance that was found in the vault
    /// moves to the owner. The vault cannot sign, so the order carries the
    /// seeds of its derivation, by which the host takes the program's word.
    pub fn process(&mut self) -> (transfer: Transfer)
        ensures
            *final(self) == *old(self),
            transfer == old(self).transfer(),
    {
        Transfer {
            from: self.accounts.vault.address,
            to: self.accounts.owner.address,
            lamports: self.accounts.lamports,
            signer_seeds: Some(
                SignerSeeds {
                    tag: VAULT_SEED,
                    owner: self.accounts.owner.address,
                    bump: self.accounts.bump,
                },
            ),
        }
    }
}

impl<'a> TryFrom<&'a [Account]> for Withdraw<'a> {
    type Error = ProgramError;

    /// Checks a withdrawal. It has no operand: the accounts are all there is
    /// to check.
    fn try_from(accounts: &'a [Account]) -> (checked: Result<Self, ProgramError>)
        ensures
            match withdraw_accounts_check(accounts@, vault_address(accounts@[0].address@)) {
                Err(error) => checked == Err::<Self, ProgramError>(error),
                Ok(bump) => checked == Ok::<Self, ProgramError>(Self::of(accounts, bump)),
            },
    {
        match WithdrawAccounts::try_from(accounts) {
            Ok(accounts) => Ok(Withdraw { accounts }),
            Err(error) => Err(error),
        }
    }
}

impl<'a> vstd::std_specs::convert::TryFromSpecImpl<&'a [Account]> for Withdraw<'a> {
    open spec fn obeys_try_from_spec() -> bool {
        true
    }

    open spec fn try_from_spec(accounts: &'a [Account]) -> Result<Self, ProgramError> {
        match withdraw_accounts_check(accounts@, vault_address(accounts@[0].address@)) {
            Err(error) => Err(error),
            Ok(bump) => Ok(Self::of(accounts, bump)),
        }
    }
}

} // verus!
