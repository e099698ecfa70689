use quarry_mint_wrapper::instruction::{
    create_metadata_accounts_v3, system_program_id, update_metadata_accounts_v2, AccountMeta,
    CREATE_METADATA_ACCOUNT_V3, SYSTEM_PROGRAM_ID, UPDATE_METADATA_ACCOUNT_V2,
};
use quarry_mint_wrapper::pubkey::Pubkey;
use quarry_mint_wrapper::wire::{CreateMetadataAccountArgsV3, DataV2, UpdateMetadataAccountArgsV2};

fn key(fill: u8) -> Pubkey {
    Pubkey::new_from_array([fill; 32])
}

fn empty_data() -> DataV2 {
    DataV2 {
        name: String::new(),
        symbol: String::new(),
        uri: String::new(),
        seller_fee_basis_points: 0,
        creators: None,
        collection: None,
        uses: None,
    }
}

type DataTuple = (String, String, String, u16, Option<u8>, Option<u8>, Option<u8>);

fn data_tuple(data: &DataV2) -> DataTuple {
    (
        data.name.clone(),
        data.symbol.clone(),
        data.uri.clone(),
        data.seller_fee_basis_points,
        data.creators,
        data.collection,
        data.uses,
    )
}

#[test]
fn opcodes_are_those_of_the_metadata_program() {
    assert_eq!(CREATE_METADATA_ACCOUNT_V3, 33);
    assert_eq!(UPDATE_METADATA_ACCOUNT_V2, 15);
}

#[test]
fn system_program_id_is_the_sdk_constant() {
    #[allow(deprecated)]
    let expected = solana_program::system_program::id();
    assert_eq!(system_program_id().to_bytes(), expected.to_bytes());
    assert_eq!(SYSTEM_PROGRAM_ID, [0u8; 32]);
}

#[test]
fn account_meta_constructors_set_the_flags() {
    assert_eq!(
        AccountMeta::new(key(1), true),
        AccountMeta { pubkey: key(1), is_signer: true, is_writable: true }
    );
    assert_eq!(
        AccountMeta::new(key(1), false),
        AccountMeta { pubkey: key(1), is_signer: false, is_writable: true }
    );
    assert_eq!(
        AccountMeta::new_readonly(key(2), true),
        AccountMeta { pubkey: key(2), is_signer: true, is_writable: false }
    );
    assert_eq!(
        AccountMeta::new_readonly(key(2), false),
        AccountMeta { pubkey: key(2), is_signer: false, is_writable: false }
    );
}

#[test]
fn create_without_content_has_the_exact_payload() {
    let instruction = create_metadata_accounts_v3(
        key(1),
        key(2),
        key(3),
        key(4),
        key(5),
        key(6),
        String::from(""),
        String::from(""),
        String::from(""),
    ).unwrap();
    assert_eq!(
        instruction.data,
        vec![33, 0, 0, 0, 0, 0, 0, 0, 0, 0, 0, 0, 0, 0, 0, 0, 0, 0, 1, 0]
    );
    assert_eq!(instruction.program_id, key(1));
}

#[test]
fn create_lists_six_accounts_in_the_fixed_order() {
    let instruction = create_metadata_accounts_v3(
        key(1),
        key(2),
        key(3),
        key(4),
        key(5),
        key(6),
        String::new(),
        String::new(),
        String::new(),
    ).unwrap();
    assert_eq!(
        instruction.accounts,
        vec![
            AccountMeta { pubkey: key(2), is_signer: false, is_writable: true },
            AccountMeta { pubkey: key(3), is_signer: false, is_writable: false },
            AccountMeta { pubkey: key(4), is_signer: true, is_writable: false },
            AccountMeta { pubkey: key(5), is_signer: true, is_writable: true },
            AccountMeta { pubkey: key(6), is_signer: true, is_writable: false },
            AccountMeta { pubkey: key(0), is_signer: false, is_writable: false },
        ]
    );
}

#[test]
fn create_with_content_matches_borsh() {
    let name = String::from("Quarry Token");
    let symbol = String::from("QRY");
    let uri = String::from("https://example.org/métadonnées/€.json");
    let instruction = create_metadata_accounts_v3(
        key(1),
        key(2),
        key(3),
        key(4),
        key(5),
        key(6),
        name.clone(),
        symbol.clone(),
        uri.clone(),
    ).unwrap();
    let args = ((name, symbol, uri.clone(), 0u16, None::<u8>, None::<u8>, None::<u8>), true, None::<u8>);
    let mut expected = vec![33u8];
    expected.extend(borsh::to_vec(&args).unwrap());
    assert_eq!(instruction.data, expected);
    assert_eq!(instruction.data[0], 33);
    assert_eq!(&instruction.data[1..5], &[12, 0, 0, 0]);
    assert_eq!(&instruction.data[5..17], "Quarry Token".as_bytes());
    assert_eq!(&instruction.data[17..21], &[3, 0, 0, 0]);
    let uri_length = uri.len();
    assert!(uri_length > uri.chars().count());
    assert_eq!(&instruction.data[24..28], &[uri_length as u8, 0, 0, 0]);
    assert_eq!(instruction.data.len(), 1 + 4 + 12 + 4 + 3 + 4 + uri_length + 2 + 3 + 1 + 1);
}

#[test]
fn a_long_string_has_a_little_endian_length() {
    let name = "x".repeat(0x01_02_03);
    let instruction = create_metadata_accounts_v3(
        key(1),
        key(2),
        key(3),
        key(4),
        key(5),
        key(6),
        name,
        String::new(),
        String::new(),
    ).unwrap();
    assert_eq!(&instruction.data[1..5], &[0x03, 0x02, 0x01, 0x00]);
    assert_eq!(instruction.data.len(), 20 + 0x01_02_03);
    assert_eq!(instruction.data[5], b'x');
}

#[test]
fn update_of_authority_alone_has_the_exact_payload() {
    let mut authority = [0u8; 32];
    for (i, byte) in authority.iter_mut().enumerate() {
        *byte = 100 + i as u8;
    }
    let instruction = update_metadata_accounts_v2(
        key(1),
        key(2),
        key(3),
        Some(Pubkey::new_from_array(authority)),
        None,
        None,
        Some(true),
    ).unwrap();
    let mut expected = vec![15u8, 0, 1];
    expected.extend_from_slice(&authority);
    expected.extend_from_slice(&[0, 1, 1]);
    assert_eq!(instruction.data, expected);
    assert_eq!(instruction.data.len(), 38);
    assert_eq!(instruction.program_id, key(1));
}

#[test]
fn update_lists_two_accounts_in_the_fixed_order() {
    let instruction =
        update_metadata_accounts_v2(key(1), key(2), key(3), Some(key(4)), None, None, Some(true)).unwrap();
    assert_eq!(
        instruction.accounts,
        vec![
            AccountMeta { pubkey: key(2), is_signer: false, is_writable: true },
            AccountMeta { pubkey: key(3), is_signer: true, is_writable: false },
        ]
    );
}

#[test]
fn update_with_nothing_to_change_is_four_absent_fields() {
    let instruction = update_metadata_accounts_v2(key(1), key(2), key(3), None, None, None, None).unwrap();
    assert_eq!(instruction.data, vec![15, 0, 0, 0, 0]);
}

#[test]
fn update_with_every_field_matches_borsh() {
    let data = DataV2 {
        name: String::from("name"),
        symbol: String::from("SYM"),
        uri: String::from("uri"),
        seller_fee_basis_points: 0x1234,
        creators: Some(7),
        collection: None,
        uses: Some(255),
    };
    let instruction = update_metadata_accounts_v2(
        key(1),
        key(2),
        key(3),
        Some(key(9)),
        Some(data.clone()),
        Some(false),
        Some(true),
    ).unwrap();
    let args = (Some(data_tuple(&data)), Some([9u8; 32]), Some(false), Some(true));
    let mut expected = vec![15u8];
    expected.extend(borsh::to_vec(&args).unwrap());
    assert_eq!(instruction.data, expected);
    let fee_at = 1 + 1 + (4 + 4) + (4 + 3) + (4 + 3);
    assert_eq!(&instruction.data[fee_at..fee_at + 2], &[0x34, 0x12]);
    assert_eq!(&instruction.data[fee_at + 2..fee_at + 7], &[1, 7, 0, 1, 255]);
    let tail = instruction.data.len() - 4;
    assert_eq!(&instruction.data[tail..], &[1, 0, 1, 1]);
}

#[test]
fn data_matches_borsh() {
    let data = DataV2 {
        name: String::from("a"),
        symbol: String::new(),
        uri: String::new(),
        seller_fee_basis_points: 500,
        creators: None,
        collection: Some(0),
        uses: None,
    };
    let out = data.to_vec().unwrap();
    assert_eq!(out, vec![1, 0, 0, 0, b'a', 0, 0, 0, 0, 0, 0, 0, 0, 0xf4, 0x01, 0, 1, 0, 0]);
    assert_eq!(out, borsh::to_vec(&data_tuple(&data)).unwrap());
}

#[test]
fn create_arguments_match_borsh() {
    let args = CreateMetadataAccountArgsV3 {
        data: empty_data(),
        is_mutable: false,
        collection_details: Some(2),
    };
    assert_eq!(
        args.to_vec(),
        Ok(vec![0, 0, 0, 0, 0, 0, 0, 0, 0, 0, 0, 0, 0, 0, 0, 0, 0, 0, 1, 2])
    );
    let tuple = (data_tuple(&args.data), false, Some(2u8));
    assert_eq!(args.to_vec().unwrap(), borsh::to_vec(&tuple).unwrap());
}

#[test]
fn update_arguments_match_borsh() {
    let args = UpdateMetadataAccountArgsV2 {
        data: Some(empty_data()),
        update_authority: None,
        primary_sale_happened: Some(true),
        is_mutable: Some(false),
    };
    let tuple =
        (Some(data_tuple(&empty_data())), None::<[u8; 32]>, Some(true), Some(false));
    assert_eq!(args.to_vec().unwrap(), borsh::to_vec(&tuple).unwrap());
    assert_eq!(
        args.to_vec(),
        Ok(vec![1, 0, 0, 0, 0, 0, 0, 0, 0, 0, 0, 0, 0, 0, 0, 0, 0, 0, 0, 1, 1, 1, 0])
    );
}
