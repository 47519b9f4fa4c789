use blueshift_vault::{
    derive_vault_address, Account, ProgramError, SignerSeeds, Transfer, Withdraw,
    WithdrawAccounts, VAULT_SEED,
};

const HOLDER: [u8; 32] = [42u8; 32];
const NOBODY: [u8; 32] = [0u8; 32];

fn withdraw_owner() -> Account {
    Account { address: HOLDER, owner: NOBODY, lamports: 3, is_signer: true }
}

fn withdraw_vault(lamports: u64) -> Account {
    let (address, _) = derive_vault_address(&HOLDER).unwrap();
    Account { address, owner: NOBODY, lamports, is_signer: false }
}

#[test]
fn withdraw_accounts_that_pass() {
    let accounts = [withdraw_owner(), withdraw_vault(5_000_000_000)];
    let checked = WithdrawAccounts::try_from(&accounts[..]).unwrap();
    assert_eq!(*checked.owner, accounts[0]);
    assert_eq!(*checked.vault, accounts[1]);
    assert_eq!(checked.lamports, 5_000_000_000);
    assert_eq!(checked.bump, 254);
}

#[test]
fn withdraw_takes_two_accounts_or_more() {
    let third = Account { address: NOBODY, owner: [5u8; 32], lamports: 1, is_signer: false };
    let accounts = [withdraw_owner(), withdraw_vault(9), third, third, third];
    for len in [0usize, 1] {
        assert_eq!(
            WithdrawAccounts::try_from(&accounts[..len]),
            Err(ProgramError::NotEnoughAccountKeys)
        );
    }
    for len in [2usize, 3, 4, 5] {
        let checked = WithdrawAccounts::try_from(&accounts[..len]).unwrap();
        assert_eq!(checked.lamports, 9);
    }
}

#[test]
fn withdraw_owner_must_sign() {
    let mut owner = withdraw_owner();
    owner.is_signer = false;
    assert_eq!(
        WithdrawAccounts::try_from(&[owner, withdraw_vault(9)][..]),
        Err(ProgramError::InvalidAccountOwner)
    );
}

#[test]
fn withdraw_vault_must_be_at_the_derived_address() {
    let mut vault = withdraw_vault(9);
    vault.address[0] ^= 0x80;
    assert_eq!(
        WithdrawAccounts::try_from(&[withdraw_owner(), vault][..]),
        Err(ProgramError::InvalidAccountOwner)
    );

    // Another owner cannot take what is in this owner's vault.
    let thief = Account { address: [43u8; 32], owner: NOBODY, lamports: 0, is_signer: true };
    assert_eq!(
        WithdrawAccounts::try_from(&[thief, withdraw_vault(9)][..]),
        Err(ProgramError::InvalidAccountOwner)
    );
}

#[test]
fn withdraw_vault_must_be_held_by_the_system_program() {
    let mut vault = withdraw_vault(9);
    vault.owner = blueshift_vault::ID;
    assert_eq!(
        WithdrawAccounts::try_from(&[withdraw_owner(), vault][..]),
        Err(ProgramError::InvalidAccountOwner)
    );
}

#[test]
fn withdraw_from_an_empty_vault_moves_nothing() {
    let accounts = [withdraw_owner(), withdraw_vault(0)];
    let mut withdraw = Withdraw::try_from(&accounts[..]).unwrap();
    let transfer = withdraw.process();
    assert_eq!(transfer.lamports, 0);
    assert_eq!(transfer.settle(&accounts), Some(accounts.to_vec()));
}

#[test]
fn withdraw_moves_the_whole_balance_to_the_owner() {
    let accounts = [withdraw_owner(), withdraw_vault(5_000_000_000)];
    let mut withdraw = Withdraw::try_from(&accounts[..]).unwrap();
    let before = withdraw;
    let transfer = withdraw.process();
    assert_eq!(withdraw, before);
    assert_eq!(
        transfer,
        Transfer {
            from: accounts[1].address,
            to: HOLDER,
            lamports: 5_000_000_000,
            signer_seeds: Some(SignerSeeds { tag: VAULT_SEED, owner: HOLDER, bump: 254 }),
        }
    );
    let after = transfer.settle(&accounts).unwrap();
    assert_eq!(after[0].lamports, 5_000_000_003);
    assert_eq!(after[1].lamports, 0);
    assert_eq!(*Withdraw::DISCRIMINATOR, 1);
}

#[test]
fn withdraw_signs_with_the_seeds_of_the_derivation() {
    let accounts = [withdraw_owner(), withdraw_vault(1)];
    let transfer = Withdraw::try_from(&accounts[..]).unwrap().process();
    let seeds = transfer.signer_seeds.unwrap();
    assert_eq!(&seeds.tag, b"vault");
    assert_eq!(seeds.owner, HOLDER);
    // The seeds, bump seed last, give the vault's address back.
    let program = pinocchio::Address::new_from_array(blueshift_vault::ID);
    let created = pinocchio::Address::create_program_address(
        &[&seeds.tag, &seeds.owner, &[seeds.bump]],
        &program,
    )
    .unwrap();
    assert_eq!(created.to_bytes(), transfer.from);
}

#[test]
fn withdraw_binding_takes_what_was_derived() {
    let owner = withdraw_owner();
    let vault = withdraw_vault(11);
    assert_eq!(
        WithdrawAccounts::bind(&owner, &vault, Some((vault.address, 200))),
        Ok(WithdrawAccounts { owner: &owner, vault: &vault, lamports: 11, bump: 200 })
    );
    assert_eq!(
        WithdrawAccounts::bind(&owner, &vault, Some(([1u8; 32], 200))),
        Err(ProgramError::InvalidAccountOwner)
    );
    assert_eq!(
        WithdrawAccounts::bind(&owner, &vault, None),
        Err(ProgramError::DerivationExhausted)
    );

    // A vault that a program has claimed is turned down even at the right address.
    let mut claimed = vault;
    claimed.owner = [6u8; 32];
    assert_eq!(
        WithdrawAccounts::bind(&owner, &claimed, Some((vault.address, 200))),
        Err(ProgramError::InvalidAccountOwner)
    );
    // The address is looked at first.
    assert_eq!(
        WithdrawAccounts::bind(&owner, &claimed, None),
        Err(ProgramError::DerivationExhausted)
    );
}
