//! Account addresses and the derivation of an owner's vault address.

use crate::error::ProgramError;
use vstd::prelude::*;

verus! {

/// The address of an account: 32 raw bytes.
pub type Address = [u8; 32];

/// The address of this program. Every vault address is derived under it.
pub const ID: Address = [
    0x0f, 0x1e, 0x6b, 0x14, 0x21, 0xc0, 0x4a, 0x07, 0x04, 0x31, 0x26, 0x5c, 0x19, 0xc5, 0xbb, 0xee,
    0x19, 0x92, 0xba, 0xe8, 0xaf, 0xd1, 0xcd, 0x07, 0x8e, 0xf8, 0xaf, 0x70, 0x47, 0xdc, 0x11, 0xf7,
];

/// The fixed seed of every vault address: the ASCII bytes of `vault`.
pub const VAULT_SEED: [u8; 5] = [0x76, 0x61, 0x75, 0x6c, 0x74];

/// The address of the system program, which holds every account that no
/// program has claimed: 32 zero bytes.
pub open spec fn system_program() -> Seq<u8> {
    Seq::new(32, |i: int| 0u8)
}

/// The program address that `seeds` give under `program_id`, with the bump
/// seed that was found for it; `None` where no bump seed gives an address off
/// the curve, or the seeds are too many or too long.
pub uninterp spec fn program_address(seeds: Seq<Seq<u8>>, program_id: Seq<u8>) -> Option<
    (Address, u8),
>;

/// The seeds of the vault of `owner`, without the bump seed.
pub open spec fn vault_seeds(owner: Seq<u8>) -> Seq<Seq<u8>> {
    seq![VAULT_SEED@, owner]
}

/// The vault address of `owner` and its bump seed, where there is one.
pub open spec fn vault_address(owner: Seq<u8>) -> Option<(Address, u8)> {
    program_address(vault_seeds(owner), ID@)
}

/// Calls `pinocchio::Address::try_find_program_address` with two seeds. The
/// contract is taken on trust. The outside function tries the bump seeds from
/// 255 down: it hashes the seeds, the bump seed, the program address and a
/// fixed marker, and takes the first hash that is no point of the curve. It
/// reads nothing but its arguments, so what it returns is `program_address`
/// of them.
#[verifier::external_body]
fn try_find_program_address(first: &[u8], second: &[u8], program_id: &Address) -> (found: Option<
    (Address, u8),
>)
    ensures
        found == program_address(seq![first@, second@], program_id@),
{
    let program = pinocchio::Address::new_from_array(*program_id);
    match pinocchio::Address::try_find_program_address(&[first, second], &program) {
        Some((address, bump)) => Some((address.to_bytes(), bump)),
        None => None,
    }
}

/// Reads the constant `pinocchio_system::ID`, the system program's address.
/// The contract is taken on trust: the constant is declared as the base-58
/// string of 32 ones, which stands for 32 zero bytes.
#[verifier::external_body]
pub(crate) fn system_program_id() -> (id: Address)
    ensures
        id@ == system_program(),
{
    pinocchio_system::ID.to_bytes()
}

/// Whether two addresses are the same 32 bytes.
pub fn address_eq(a: &Address, b: &Address) -> (same: bool)
    ensures
        same <==> a@ == b@,
{
    let mut i: usize = 0;
    while i < 32
        invariant
            i <= 32,
            forall|j: int| 0 <= j < i ==> a@[j] == b@[j],
        decreases 32 - i,
    {
        if a[i] != b[i] {
            return false;
        }
        i += 1;
    }
    assert(a@ =~= b@);
    true
}

/// Derives the vault address of `owner` under this program, with the bump
/// seed that lets the program sign for it.
pub fn derive_vault_address(owner: &Address) -> (derived: Option<(Address, u8)>)
    ensures
        derived == vault_address(owner@),
{
    try_find_program_address(VAULT_SEED.as_slice(), owner.as_slice(), &ID)
}

/// One owner has one vault: whenever the address is derived for the same
/// owner, the same address and the same bump seed come out.
pub proof fn lemma_vault_address_is_fixed(owner: Address, again: Address)
    requires
        owner@ == again@,
    ensures
        vault_address(owner@) == vault_address(again@),
{
}

/// What a derivation decides of the address that was supplied for a vault:
/// the bump seed where the address is the derived one, a rejection where it
/// is another, and the fatal kind where nothing could be derived.
pub open spec fn vault_binding(supplied: Seq<u8>, derived: Option<(Address, u8)>) -> Result<
    u8,
    ProgramError,
> {
    match derived {
        None => Err(ProgramError::DerivationExhausted),
        Some((address, bump)) => if supplied == address@ {
            Ok(bump)
        } else {
            Err(ProgramError::InvalidAccountOwner)
        },
    }
}

/// Holds the address supplied for a vault against what was derived for its
/// owner. The address is never taken on trust: it must be the derived one.
pub fn check_vault_address(supplied: &Address, derived: Option<(Address, u8)>) -> (bound: Result<
    u8,
    ProgramError,
>)
    ensures
        bound == vault_binding(supplied@, derived),
{
    match derived {
        None => Err(ProgramError::DerivationExhausted),
        Some((address, bump)) => if address_eq(supplied, &address) {
            Ok(bump)
        } else {
            Err(ProgramError::InvalidAccountOwner)
        },
    }
}

} // verus!
