//! What the vault reads of an account that an instruction names.

use crate::address::Address;
use vstd::prelude::*;

verus! {

/// The state of one account as the host hands it to an instruction.
#[derive(Clone, Copy, Debug, PartialEq, Eq)]
pub struct Account {
    /// Where the account lives.
    pub address: Address,
    /// The program that holds the account.
    pub owner: Address,
    /// Its balance, in lamports.
    pub lamports: u64,
    /// Whether the account signed the transaction.
    pub is_signer: bool,
}

impl Account {
    /// Whether `program` holds the account.
    pub fn owned_by(&self, program: &Address) -> (held: bool)
        ensures
            held <==> self.owner@ == program@,
    {
        crate::address::address_eq(&self.owner, program)
    }
}

} // verus!
