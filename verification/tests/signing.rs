use quarry_mint_wrapper::instruction::update_metadata_accounts_v2;
use quarry_mint_wrapper::pubkey::Pubkey;
use quarry_mint_wrapper::signer::{sign_as_vault, MintWrapper, MINT_WRAPPER_SEED};

fn key(fill: u8) -> Pubkey {
    Pubkey::new_from_array([fill; 32])
}

#[test]
fn seed_tag_is_the_word_mint_wrapper() {
    assert_eq!(&MINT_WRAPPER_SEED[..], "MintWrapper".as_bytes());
}

#[test]
fn signer_seeds_are_tag_base_and_bump() {
    let vault = MintWrapper { key: key(1), base: key(2), bump: 254 };
    let seeds = vault.gen_wrapper_signer_seeds();
    assert_eq!(seeds, vec![b"MintWrapper".to_vec(), vec![2u8; 32], vec![254u8]]);
}

#[test]
fn signer_seeds_do_not_depend_on_the_wrappers_own_address() {
    let first = MintWrapper { key: key(1), base: key(2), bump: 7 };
    let second = MintWrapper { key: key(9), base: key(2), bump: 7 };
    assert_eq!(first.gen_wrapper_signer_seeds(), second.gen_wrapper_signer_seeds());
    let third = MintWrapper { key: key(1), base: key(2), bump: 8 };
    assert_ne!(first.gen_wrapper_signer_seeds(), third.gen_wrapper_signer_seeds());
}

#[test]
fn signer_seeds_rebuild_the_wrappers_address() {
    let program = solana_program::pubkey::Pubkey::new_from_array([42u8; 32]);
    let base = key(77);
    let (address, bump) = solana_program::pubkey::Pubkey::find_program_address(
        &[b"MintWrapper", &base.to_bytes()],
        &program,
    );
    let vault = MintWrapper { key: Pubkey::new_from_array(address.to_bytes()), base, bump };
    let seeds = vault.gen_wrapper_signer_seeds();
    let slices: Vec<&[u8]> = seeds.iter().map(|seed| seed.as_slice()).collect();
    let rebuilt =
        solana_program::pubkey::Pubkey::create_program_address(&slices, &program).unwrap();
    assert_eq!(rebuilt, address);
}

#[test]
fn signing_keeps_the_instruction_and_adds_the_seeds() {
    let vault = MintWrapper { key: key(3), base: key(4), bump: 200 };
    let instruction =
        update_metadata_accounts_v2(key(1), key(2), key(3), Some(key(5)), None, None, Some(true))
            .unwrap();
    let call = sign_as_vault(&vault, instruction.clone());
    assert_eq!(call.instruction, instruction);
    assert_eq!(call.signer_seeds, vault.gen_wrapper_signer_seeds());
}
