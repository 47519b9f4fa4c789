use blueshift_vault::{
    address_eq, check_vault_address, derive_vault_address, ProgramError, ID, VAULT_SEED,
};
use pinocchio::Address;

#[test]
fn program_address_is_the_base58_string_of_twos() {
    let decoded = Address::from_str_const("22222222222222222222222222222222222222222222");
    assert_eq!(decoded.to_bytes(), ID);
}

#[test]
fn vault_seed_is_the_word_vault() {
    assert_eq!(&VAULT_SEED, b"vault");
}

#[test]
fn system_program_address_is_all_zero() {
    assert_eq!(pinocchio_system::ID.to_bytes(), [0u8; 32]);
}

#[test]
fn derivation_gives_known_addresses() {
    assert_eq!(
        derive_vault_address(&[7u8; 32]),
        Some((
            [
                177, 57, 195, 208, 130, 23, 78, 205, 12, 60, 55, 138, 82, 199, 45, 209, 164, 140,
                27, 185, 64, 220, 63, 117, 98, 218, 28, 88, 29, 151, 178, 238
            ],
            255
        ))
    );
    assert_eq!(
        derive_vault_address(&[42u8; 32]),
        Some((
            [
                196, 51, 32, 222, 19, 23, 79, 28, 106, 63, 45, 91, 141, 10, 246, 23, 117, 131, 237,
                90, 16, 170, 136, 182, 28, 174, 255, 20, 87, 225, 27, 231
            ],
            254
        ))
    );
    assert_eq!(
        derive_vault_address(&[0u8; 32]),
        Some((
            [
                137, 106, 99, 193, 116, 17, 72, 136, 206, 224, 194, 147, 72, 190, 250, 228, 22,
                245, 26, 40, 203, 150, 226, 95, 139, 238, 163, 164, 158, 239, 18, 154
            ],
            253
        ))
    );
}

#[test]
fn derivation_agrees_with_find_program_address() {
    let program = Address::new_from_array(ID);
    let mut owner = [0u8; 32];
    for round in 0..64u8 {
        let at = (round % 32) as usize;
        owner[at] = owner[at].wrapping_mul(31).wrapping_add(round | 1);
        let (address, bump) = Address::find_program_address(&[b"vault", &owner], &program);
        assert_eq!(derive_vault_address(&owner), Some((address.to_bytes(), bump)));
    }
}

#[test]
fn derivation_is_the_same_every_time() {
    let owner = [0xabu8; 32];
    let first = derive_vault_address(&owner);
    assert!(first.is_some());
    for _ in 0..5 {
        assert_eq!(derive_vault_address(&owner), first);
    }
    let copy = owner;
    assert_eq!(derive_vault_address(&copy), first);
}

#[test]
fn derivation_differs_between_owners() {
    let mut seen: Vec<[u8; 32]> = Vec::new();
    for byte in 0..=255u8 {
        let owner = [byte; 32];
        let (address, _) = derive_vault_address(&owner).unwrap();
        assert_ne!(address, owner);
        assert!(!seen.contains(&address));
        seen.push(address);
    }
}

#[test]
fn derived_address_is_off_the_curve() {
    for byte in [0u8, 1, 7, 42, 200, 255] {
        let (address, _) = derive_vault_address(&[byte; 32]).unwrap();
        assert!(!Address::new_from_array(address).is_on_curve());
    }
}

#[test]
fn addresses_are_compared_byte_by_byte() {
    let a = [9u8; 32];
    assert!(address_eq(&a, &a));
    assert!(address_eq(&a, &[9u8; 32]));
    for i in 0..32 {
        let mut b = a;
        b[i] = 8;
        assert!(!address_eq(&a, &b));
        assert!(!address_eq(&b, &a));
    }
}

#[test]
fn supplied_address_is_held_against_the_derived_one() {
    let derived = [4u8; 32];
    assert_eq!(check_vault_address(&derived, Some((derived, 251))), Ok(251));
    assert_eq!(check_vault_address(&derived, Some((derived, 0))), Ok(0));
    let mut other = derived;
    other[16] = 5;
    assert_eq!(
        check_vault_address(&other, Some((derived, 251))),
        Err(ProgramError::InvalidAccountOwner)
    );
}

#[test]
fn exhausted_derivation_is_its_own_error() {
    assert_eq!(check_vault_address(&[4u8; 32], None), Err(ProgramError::DerivationExhausted));
    assert_eq!(check_vault_address(&[0u8; 32], None), Err(ProgramError::DerivationExhausted));
}
