//! The transfer that an operation asks the host to carry out, and what it
//! does to the balances of the accounts.

use crate::account::Account;
use crate::address::{address_eq, Address};
use vstd::prelude::*;

verus! {

/// The seeds with which the program signs for a vault: the derivation's own
/// seeds, then the bump seed. This is what stands in for the signature that
/// a vault, having no private key, can never give.
#[derive(Clone, Copy, Debug, PartialEq, Eq)]
pub struct SignerSeeds {
    /// The fixed seed.
    pub tag: [u8; 5],
    /// The address of the vault's owner.
    pub owner: Address,
    /// The bump seed that the derivation found.
    pub bump: u8,
}

impl View for SignerSeeds {
    type V = Seq<Seq<u8>>;

    /// The seeds in the order in which the host hashes them.
    open spec fn view(&self) -> Seq<Seq<u8>> {
        seq![self.tag@, self.owner@, seq![self.bump]]
    }
}

/// An order to the host's native transfer: move `lamports` from one account
/// to another.
#[derive(Clone, Copy, Debug, PartialEq, Eq)]
pub struct Transfer {
    /// The account that pays.
    pub from: Address,
    /// The account that receives.
    pub to: Address,
    /// How much moves.
    pub lamports: u64,
    /// `None` where the paying account has signed the transaction; else the
    /// seeds with which the program signs for it.
    pub signer_seeds: Option<SignerSeeds>,
}

impl Transfer {
    /// What the account at `address` holds once the transfer is carried out,
    /// if it held `balance` before: the paying account has `lamports` less,
    /// the receiving account `lamports` more.
    pub open spec fn balance_after(self, address: Seq<u8>, balance: int) -> int {
        balance - (if address == self.from@ {
            self.lamports as int
        } else {
            0
        }) + (if address == self.to@ {
            self.lamports as int
        } else {
            0
        })
    }

    /// Whether the transfer can be carried out as far as `account` goes: the
    /// paying account covers the amount, and no balance leaves the range of
    /// a `u64`.
    pub open spec fn fits(self, account: Account) -> bool {
        &&& account.address@ == self.from@ ==> account.lamports >= self.lamports
        &&& self.balance_after(account.address@, account.lamports as int) <= u64::MAX
    }

    /// `account` once the transfer is carried out: its balance moves, and
    /// nothing else of it does.
    pub open spec fn settled(self, account: Account) -> Account
        recommends
            self.fits(account),
    {
        Account {
            lamports: self.balance_after(account.address@, account.lamports as int) as u64,
            ..account
        }
    }

    /// Whether the transfer can be carried out on a list of accounts.
    pub open spec fn fits_all(self, accounts: Seq<Account>) -> bool {
        forall|i: int| 0 <= i < accounts.len() ==> self.fits(#[trigger] accounts[i])
    }

    /// A list of accounts once the transfer is carried out.
    pub open spec fn settled_all(self, accounts: Seq<Account>) -> Seq<Account> {
        Seq::new(accounts.len(), |i: int| self.settled(accounts[i]))
    }

    /// Carries the transfer out on one account, or finds that it cannot be.
    fn settle_one(&self, account: &Account) -> (settled: Option<Account>)
        ensures
            settled == if self.fits(*account) {
                Some(self.settled(*account))
            } else {
                None
            },
    {
        let pays = address_eq(&account.address, &self.from);
        let receives = address_eq(&account.address, &self.to);
        if pays && account.lamports < self.lamports {
            return None;
        }
        let lamports = if pays == receives {
            account.lamports
        } else if pays {
            account.lamports - self.lamports
        } else {
            match account.lamports.checked_add(self.lamports) {
                Some(lamports) => lamports,
                None => return None,
            }
        };
        Some(
            Account {
                address: account.address,
                owner: account.owner,
                lamports,
                is_signer: account.is_signer,
            },
        )
    }

    /// Carries the transfer out on a list of accounts, as the host's native
    /// transfer does: every account of the list that pays or receives has its
    /// balance moved. Nothing is moved at all where the paying account does
    /// not cover the amount or a balance would overflow.
    pub fn settle(&self, accounts: &[Account]) -> (settled: Option<Vec<Account>>)
        ensures
            settled is Some <==> self.fits_all(accounts@),
            settled matches Some(after) ==> after@ == self.settled_all(accounts@),
    {
        let mut after: Vec<Account> = Vec::new();
        let mut i: usize = 0;
        while i < accounts.len()
            invariant
                i <= accounts.len(),
                after@.len() == i,
                forall|j: int| 0 <= j < i ==> self.fits(#[trigger] accounts@[j]),
                forall|j: int| 0 <= j < i ==> after@[j] == self.settled(accounts@[j]),
            decreases accounts.len() - i,
        {
            match self.settle_one(&accounts[i]) {
                Some(account) => after.push(account),
                None => return None,
            }
            i += 1;
        }
        assert(after@ =~= self.settled_all(accounts@));
        Some(after)
    }
}

} // verus!
