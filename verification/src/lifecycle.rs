//! The life of a vault: empty, funded by one deposit, emptied again by a
//! withdrawal. What holds of the operations one after the other is proved
//! here, over the transfer that each call comes to and what that transfer
//! does to the balances once the host has carried it out.

use crate::account::Account;
use crate::error::ProgramError;
use crate::instructions::deposit::Deposit;
use crate::instructions::instruction_outcome;
use crate::instructions::withdraw::Withdraw;
use crate::transfer::Transfer;
use vstd::prelude::*;

verus! {

/// Whether a buffer asks for a deposit.
pub open spec fn is_deposit(instruction_data: Seq<u8>) -> bool {
    instruction_data.len() > 0 && instruction_data[0] == *Deposit::DISCRIMINATOR
}

/// Whether a buffer asks for a withdrawal.
pub open spec fn is_withdraw(instruction_data: Seq<u8>) -> bool {
    instruction_data.len() > 0 && instruction_data[0] == *Withdraw::DISCRIMINATOR
}

/// A deposit that the host has carried out leaves its amount in the vault,
/// and the owner that much poorer.
pub proof fn lemma_deposit_funds_vault(accounts: Seq<Account>, deposit: Seq<u8>)
    requires
        is_deposit(deposit),
        instruction_outcome(accounts, deposit) is Ok,
        instruction_outcome(accounts, deposit)->Ok_0.fits_all(accounts),
    ensures
        ({
            let paid_in = instruction_outcome(accounts, deposit)->Ok_0;
            let funded = paid_in.settled_all(accounts);
            &&& paid_in.lamports > 0
            &&& accounts[1].lamports == 0
            &&& funded[1].lamports == paid_in.lamports
            &&& funded[0].lamports == accounts[0].lamports - paid_in.lamports
        }),
{
}

/// A vault is funded once: after a deposit that the host has carried out,
/// another deposit on the same accounts is turned down, whatever its amount.
/// Nothing is ever added to a vault that holds something.
pub proof fn lemma_second_deposit_fails(accounts: Seq<Account>, deposit: Seq<u8>, again: Seq<u8>)
    requires
        is_deposit(deposit),
        is_deposit(again),
        instruction_outcome(accounts, deposit) is Ok,
        instruction_outcome(accounts, deposit)->Ok_0.fits_all(accounts),
    ensures
        ({
            let paid_in = instruction_outcome(accounts, deposit)->Ok_0;
            instruction_outcome(paid_in.settled_all(accounts), again) == Err::<
                Transfer,
                ProgramError,
            >(ProgramError::InvalidAccountData)
        }),
{
    lemma_deposit_funds_vault(accounts, deposit);
}

/// A withdrawal that is not turned down takes all that the vault holds, be
/// it nothing, and leaves the vault empty once the host has carried it out.
/// Owner and vault are taken to be two accounts, as a signer and a derived
/// address always are.
pub proof fn lemma_withdraw_drains_vault(accounts: Seq<Account>, withdraw: Seq<u8>)
    requires
        is_withdraw(withdraw),
        instruction_outcome(accounts, withdraw) is Ok,
        instruction_outcome(accounts, withdraw)->Ok_0.fits_all(accounts),
        accounts[0].address@ != accounts[1].address@,
    ensures
        ({
            let paid_out = instruction_outcome(accounts, withdraw)->Ok_0;
            let emptied = paid_out.settled_all(accounts);
            &&& paid_out.lamports == accounts[1].lamports
            &&& emptied[1].lamports == 0
            &&& emptied[0].lamports == accounts[0].lamports + accounts[1].lamports
        }),
{
}

/// Deposit, then withdraw: once the host has carried both out, the owner
/// holds what it held before the deposit and the vault holds nothing; indeed
/// every account of the list is as it was. After the deposit the withdrawal
/// is never turned down, and the host can always carry it out.
pub proof fn lemma_deposit_then_withdraw(
    accounts: Seq<Account>,
    deposit: Seq<u8>,
    withdraw: Seq<u8>,
)
    requires
        is_deposit(deposit),
        is_withdraw(withdraw),
        instruction_outcome(accounts, deposit) is Ok,
        instruction_outcome(accounts, deposit)->Ok_0.fits_all(accounts),
    ensures
        ({
            let paid_in = instruction_outcome(accounts, deposit)->Ok_0;
            let funded = paid_in.settled_all(accounts);
            let paid_out = instruction_outcome(funded, withdraw);
            &&& paid_out is Ok
            &&& paid_out->Ok_0.lamports == paid_in.lamports
            &&& paid_out->Ok_0.fits_all(funded)
            &&& paid_out->Ok_0.settled_all(funded) == accounts
            &&& paid_out->Ok_0.settled_all(funded)[0].lamports == accounts[0].lamports
            &&& paid_out->Ok_0.settled_all(funded)[1].lamports == 0
        }),
{
    let paid_in = instruction_outcome(accounts, deposit)->Ok_0;
    let funded = paid_in.settled_all(accounts);
    lemma_deposit_funds_vault(accounts, deposit);
    let paid_out = instruction_outcome(funded, withdraw)->Ok_0;
    assert(paid_out.settled_all(funded) =~= accounts);
}

} // verus!
