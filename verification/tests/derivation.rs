use quarry_mint_wrapper::error::ErrorCode;
use quarry_mint_wrapper::handler::{check_derived_address, check_mpl_metadata_account_address};
use quarry_mint_wrapper::pda::{
    derive_record_address, find_metadata_account, metadata_program_id,
    try_find_metadata_account, METADATA_PROGRAM_ID, PREFIX,
};
use quarry_mint_wrapper::pubkey::Pubkey;
use std::str::FromStr;

fn sdk_key(key: &Pubkey) -> solana_program::pubkey::Pubkey {
    solana_program::pubkey::Pubkey::new_from_array(key.to_bytes())
}

fn mint(seed: u8) -> Pubkey {
    let mut bytes = [0u8; 32];
    for (i, byte) in bytes.iter_mut().enumerate() {
        *byte = seed.wrapping_mul(31).wrapping_add(i as u8);
    }
    Pubkey::new_from_array(bytes)
}

#[test]
fn metadata_program_id_is_the_well_known_address() {
    let expected =
        solana_program::pubkey::Pubkey::from_str("metaqbxxUerdq28cj1RbAWkYQm3ybzjb6a8bt518x1s")
            .unwrap();
    assert_eq!(metadata_program_id().to_bytes(), expected.to_bytes());
    assert_eq!(METADATA_PROGRAM_ID, expected.to_bytes());
}

#[test]
fn prefix_is_the_word_metadata() {
    assert_eq!(&PREFIX[..], "metadata".as_bytes());
}

#[test]
fn derived_address_is_what_the_sdk_derives() {
    let registry = sdk_key(&metadata_program_id());
    for seed in 0..8u8 {
        let mint = mint(seed);
        let (expected, bump) = solana_program::pubkey::Pubkey::find_program_address(
            &[b"metadata", registry.as_ref(), sdk_key(&mint).as_ref()],
            &registry,
        );
        let found = try_find_metadata_account(&mint);
        assert_eq!(found, Some((Pubkey::new_from_array(expected.to_bytes()), bump)));
    }
}

#[test]
fn record_address_in_any_registry_is_what_the_sdk_derives() {
    for fill in [0u8, 1, 200] {
        let registry = Pubkey::new_from_array([fill; 32]);
        let mint = mint(fill);
        let (expected, bump) = solana_program::pubkey::Pubkey::find_program_address(
            &[b"metadata", &[fill; 32], sdk_key(&mint).as_ref()],
            &sdk_key(&registry),
        );
        assert_eq!(
            derive_record_address(&registry, &mint),
            Some((Pubkey::new_from_array(expected.to_bytes()), bump))
        );
        assert_eq!(derive_record_address(&registry, &mint), derive_record_address(&registry, &mint));
    }
}

#[test]
fn record_address_depends_on_the_registry() {
    let mint = mint(6);
    let in_metadata_program = derive_record_address(&metadata_program_id(), &mint);
    let elsewhere = derive_record_address(&Pubkey::new_from_array([1u8; 32]), &mint);
    assert_eq!(in_metadata_program, try_find_metadata_account(&mint));
    assert_ne!(in_metadata_program.unwrap().0, elsewhere.unwrap().0);
}

#[test]
fn derived_address_is_off_the_curve_and_differs_from_the_mint() {
    let mint = mint(3);
    let (address, bump) = try_find_metadata_account(&mint).unwrap();
    assert!(!sdk_key(&address).is_on_curve());
    assert!(bump >= 1);
    assert_ne!(address, mint);
    assert_ne!(address, metadata_program_id());
}

#[test]
fn derivation_is_stable_across_calls() {
    for seed in 0..4u8 {
        let mint = mint(seed);
        let first = try_find_metadata_account(&mint);
        let second = try_find_metadata_account(&mint);
        assert!(first.is_some());
        assert_eq!(first, second);
        assert_eq!(Some(find_metadata_account(&mint)), first);
        assert_eq!(find_metadata_account(&mint), find_metadata_account(&mint));
    }
}

#[test]
fn equal_mints_built_apart_derive_the_same_address() {
    let first = Pubkey::new_from_array([9u8; 32]);
    let second = Pubkey::new_from_array(first.to_bytes());
    assert_eq!(find_metadata_account(&first), find_metadata_account(&second));
}

#[test]
fn different_mints_derive_different_addresses() {
    let first = find_metadata_account(&mint(1)).0;
    let second = find_metadata_account(&mint(2)).0;
    assert_ne!(first, second);
}

#[test]
fn validate_accepts_the_derived_address() {
    for seed in 0..4u8 {
        let mint = mint(seed);
        let (address, _) = find_metadata_account(&mint);
        assert_eq!(check_mpl_metadata_account_address(&address, &mint), Ok(()));
    }
}

#[test]
fn validate_rejects_an_address_derived_for_another_mint() {
    let mint_a = mint(1);
    let mint_b = mint(2);
    let (address_b, _) = find_metadata_account(&mint_b);
    assert_eq!(
        check_mpl_metadata_account_address(&address_b, &mint_a),
        Err(ErrorCode::Unauthorized)
    );
}

#[test]
fn validate_rejects_every_other_address_tried() {
    let mint = mint(5);
    let (address, _) = find_metadata_account(&mint);
    let mut others = vec![
        mint,
        metadata_program_id(),
        Pubkey::new_from_array([0u8; 32]),
        Pubkey::new_from_array([255u8; 32]),
    ];
    for position in 0..32 {
        let mut bytes = address.to_bytes();
        bytes[position] ^= 1;
        others.push(Pubkey::new_from_array(bytes));
    }
    for other in others {
        assert_eq!(
            check_mpl_metadata_account_address(&other, &mint),
            Err(ErrorCode::Unauthorized)
        );
    }
}

#[test]
fn check_against_a_given_derivation() {
    let derived = Pubkey::new_from_array([4u8; 32]);
    let other = Pubkey::new_from_array([5u8; 32]);
    assert_eq!(check_derived_address(Some((derived, 255)), &derived), Ok(()));
    assert_eq!(check_derived_address(Some((derived, 1)), &derived), Ok(()));
    assert_eq!(check_derived_address(Some((derived, 255)), &other), Err(ErrorCode::Unauthorized));
    assert_eq!(check_derived_address(None, &derived), Err(ErrorCode::Unauthorized));
}

#[test]
fn addresses_compare_by_their_bytes() {
    let mut bytes = [0u8; 32];
    bytes[31] = 1;
    let last = Pubkey::new_from_array(bytes);
    let zero = Pubkey::new_from_array([0u8; 32]);
    assert_ne!(last, zero);
    assert_eq!(last, Pubkey::new_from_array(bytes));
    assert_eq!(last.to_bytes(), bytes);
    assert_eq!(zero, Pubkey([0u8; 32]));
}
