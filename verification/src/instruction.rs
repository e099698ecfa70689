//! The two instructions that the metadata program accepts from the handler:
//! the creation of a record and the update of one.

use vstd::prelude::*;
use crate::error::ErrorCode;
use crate::pubkey::Pubkey;
use crate::wire::{CreateMetadataAccountArgsV3, DataV2, UpdateMetadataAccountArgsV2};
use crate::wire::{bool_layout, data_layout, option_u8_layout, string_fits};

verus! {

/// Opcode of the instruction that creates a metadata record.
pub const CREATE_METADATA_ACCOUNT_V3: u8 = 33;

/// Opcode of the instruction that updates a metadata record.
pub const UPDATE_METADATA_ACCOUNT_V2: u8 = 15;

/// The bytes of the system program's address.
pub const SYSTEM_PROGRAM_ID: [u8; 32] = [
    0, 0, 0, 0, 0, 0, 0, 0, 0, 0, 0, 0, 0, 0, 0, 0, 0, 0, 0, 0, 0, 0, 0, 0, 0, 0, 0, 0, 0, 0, 0, 0,
];

/// The address of the system program.
pub fn system_program_id() -> (id: Pubkey)
    ensures
        id.0 == SYSTEM_PROGRAM_ID,
{
    Pubkey(SYSTEM_PROGRAM_ID)
}

/// How an instruction uses one account.
#[derive(Clone, Copy, Debug, PartialEq, Eq)]
pub struct AccountMeta {
    /// The account's address.
    pub pubkey: Pubkey,
    /// Whether the account must sign the instruction.
    pub is_signer: bool,
    /// Whether the instruction may change the account.
    pub is_writable: bool,
}

impl AccountMeta {
    /// An account that the instruction may write to.
    pub fn new(pubkey: Pubkey, is_signer: bool) -> (meta: AccountMeta)
        ensures
            meta == (AccountMeta { pubkey, is_signer, is_writable: true }),
    {
        AccountMeta { pubkey, is_signer, is_writable: true }
    }

    /// An account that the instruction only reads.
    pub fn new_readonly(pubkey: Pubkey, is_signer: bool) -> (meta: AccountMeta)
        ensures
            meta == (AccountMeta { pubkey, is_signer, is_writable: false }),
    {
        AccountMeta { pubkey, is_signer, is_writable: false }
    }
}

/// An instruction for a program: the program, the accounts in the order the
/// program expects them, and the payload.
#[derive(Clone, Debug, PartialEq, Eq)]
pub struct Instruction {
    /// The program that executes the instruction.
    pub program_id: Pubkey,
    /// The accounts, by position.
    pub accounts: Vec<AccountMeta>,
    /// The opcode byte followed by the serialised arguments.
    pub data: Vec<u8>,
}

/// An instruction as a mathematical value.
pub struct InstructionView {
    pub program_id: Pubkey,
    pub accounts: Seq<AccountMeta>,
    pub data: Seq<u8>,
}

impl View for Instruction {
    type V = InstructionView;

    open spec fn view(&self) -> InstructionView {
        InstructionView { program_id: self.program_id, accounts: self.accounts@, data: self.data@ }
    }
}

/// The payload of a creation: the opcode, then the given strings, no
/// royalty, every reserved field absent, and a mutable record.
pub open spec fn create_payload(name: Seq<char>, symbol: Seq<char>, uri: Seq<char>) -> Seq<u8> {
    seq![CREATE_METADATA_ACCOUNT_V3] + (data_layout(name, symbol, uri, 0, None, None, None)
        + bool_layout(true) + option_u8_layout(None))
}

/// The payload of an update: the opcode, then the four optional arguments.
pub open spec fn update_payload(
    new_update_authority: Option<Pubkey>,
    metadata: Option<DataV2>,
    primary_sale_happened: Option<bool>,
    is_mutable: Option<bool>,
) -> Seq<u8> {
    seq![UPDATE_METADATA_ACCOUNT_V2] + (UpdateMetadataAccountArgsV2 {
        data: metadata,
        update_authority: new_update_authority,
        primary_sale_happened,
        is_mutable,
    }).layout()
}

/// A creation without descriptive content has this payload of twenty bytes:
/// the opcode, three empty strings, no royalty, three absent fields, the
/// mutability flag set, and one more absent field.
pub proof fn lemma_create_payload_without_content()
    ensures
        create_payload(Seq::empty(), Seq::empty(), Seq::empty()) =~= seq![
            33u8, 0u8, 0u8, 0u8, 0u8, 0u8, 0u8, 0u8, 0u8, 0u8, 0u8, 0u8, 0u8, 0u8, 0u8, 0u8, 0u8,
            0u8, 1u8, 0u8,
        ],
{
}

/// An update that only names a new update authority and keeps the record
/// mutable has this payload: the opcode, no descriptive fields, the
/// authority's 32 bytes behind their tag, no primary-sale flag, and the
/// mutability flag set.
pub proof fn lemma_update_payload_of_authority(authority: Pubkey)
    ensures
        update_payload(Some(authority), None, None, Some(true)) =~= seq![15u8, 0u8, 1u8]
            + authority@ + seq![0u8, 1u8, 1u8],
        update_payload(Some(authority), None, None, Some(true)).len() == 38,
{
}

/// The accounts of a creation, by position: the record (writable), the mint,
/// the mint authority (signer), the payer (writable, signer), the update
/// authority (signer) and the system program.
pub open spec fn create_accounts(
    metadata_account: Pubkey,
    mint: Pubkey,
    mint_authority: Pubkey,
    payer: Pubkey,
    update_authority: Pubkey,
) -> Seq<AccountMeta> {
    seq![
        AccountMeta { pubkey: metadata_account, is_signer: false, is_writable: true },
        AccountMeta { pubkey: mint, is_signer: false, is_writable: false },
        AccountMeta { pubkey: mint_authority, is_signer: true, is_writable: false },
        AccountMeta { pubkey: payer, is_signer: true, is_writable: true },
        AccountMeta { pubkey: update_authority, is_signer: true, is_writable: false },
        AccountMeta { pubkey: Pubkey(SYSTEM_PROGRAM_ID), is_signer: false, is_writable: false },
    ]
}

/// The accounts of an update, by position: the record (writable) and its
/// current update authority (signer).
pub open spec fn update_accounts(metadata_account: Pubkey, update_authority: Pubkey) -> Seq<
    AccountMeta,
> {
    seq![
        AccountMeta { pubkey: metadata_account, is_signer: false, is_writable: true },
        AccountMeta { pubkey: update_authority, is_signer: true, is_writable: false },
    ]
}

/// Builds the instruction that creates the metadata record of `mint`, or
/// fails with `EncodingInvariantViolation` where a string is too long to be
/// serialised.
pub fn create_metadata_accounts_v3(
    program_id: Pubkey,
    metadata_account: Pubkey,
    mint: Pubkey,
    mint_authority: Pubkey,
    payer: Pubkey,
    update_authority: Pubkey,
    name: String,
    symbol: String,
    uri: String,
) -> (built: Result<Instruction, ErrorCode>)
    ensures
        built is Ok <==> string_fits(name@) && string_fits(symbol@) && string_fits(uri@),
        built matches Err(code) ==> code == ErrorCode::EncodingInvariantViolation,
        built matches Ok(instruction) ==> {
            &&& instruction.program_id == program_id
            &&& instruction.accounts@ == create_accounts(
                metadata_account,
                mint,
                mint_authority,
                payer,
                update_authority,
            )
            &&& instruction.accounts@.len() == 6
            &&& instruction.data@ == create_payload(name@, symbol@, uri@)
            &&& instruction.data@[0] == CREATE_METADATA_ACCOUNT_V3
        },
{
    let args = CreateMetadataAccountArgsV3 {
        data: DataV2 {
            name,
            symbol,
            uri,
            seller_fee_basis_points: 0,
            creators: None,
            collection: None,
            uses: None,
        },
        is_mutable: true,
        collection_details: None,
    };
    let mut data: Vec<u8> = Vec::new();
    data.push(CREATE_METADATA_ACCOUNT_V3);
    match args.to_vec() {
        Ok(mut payload) => data.append(&mut payload),
        Err(code) => return Err(code),
    }
    let mut accounts: Vec<AccountMeta> = Vec::new();
    accounts.push(AccountMeta::new(metadata_account, false));
    accounts.push(AccountMeta::new_readonly(mint, false));
    accounts.push(AccountMeta::new_readonly(mint_authority, true));
    accounts.push(AccountMeta::new(payer, true));
    accounts.push(AccountMeta::new_readonly(update_authority, true));
    accounts.push(AccountMeta::new_readonly(system_program_id(), false));
    proof {
        assert(accounts@ =~= create_accounts(
            metadata_account,
            mint,
            mint_authority,
            payer,
            update_authority,
        ));
        assert(data@ =~= seq![CREATE_METADATA_ACCOUNT_V3] + args.layout());
    }
    Ok(Instruction { program_id, accounts, data })
}

/// Builds the instruction that updates a metadata record, or fails with
/// `EncodingInvariantViolation` where a string is too long to be serialised.
/// Each argument that is `None` leaves that part of the record unchanged.
pub fn update_metadata_accounts_v2(
    program_id: Pubkey,
    metadata_account: Pubkey,
    update_authority: Pubkey,
    new_update_authority: Option<Pubkey>,
    metadata: Option<DataV2>,
    primary_sale_happened: Option<bool>,
    is_mutable: Option<bool>,
) -> (built: Result<Instruction, ErrorCode>)
    ensures
        built is Ok <==> (metadata matches Some(fields) ==> fields.fits()),
        built matches Err(code) ==> code == ErrorCode::EncodingInvariantViolation,
        built matches Ok(instruction) ==> {
            &&& instruction.program_id == program_id
            &&& instruction.accounts@ == update_accounts(metadata_account, update_authority)
            &&& instruction.accounts@.len() == 2
            &&& instruction.data@ == update_payload(
                new_update_authority,
                metadata,
                primary_sale_happened,
                is_mutable,
            )
            &&& instruction.data@[0] == UPDATE_METADATA_ACCOUNT_V2
        },
{
    let args = UpdateMetadataAccountArgsV2 {
        data: metadata,
        update_authority: new_update_authority,
        primary_sale_happened,
        is_mutable,
    };
    let mut data: Vec<u8> = Vec::new();
    data.push(UPDATE_METADATA_ACCOUNT_V2);
    match args.to_vec() {
        Ok(mut payload) => data.append(&mut payload),
        Err(code) => return Err(code),
    }
    let mut accounts: Vec<AccountMeta> = Vec::new();
    accounts.push(AccountMeta::new(metadata_account, false));
    accounts.push(AccountMeta::new_readonly(update_authority, true));
    proof {
        assert(accounts@ =~= update_accounts(metadata_account, update_authority));
        assert(data@ =~= seq![UPDATE_METADATA_ACCOUNT_V2] + args.layout());
    }
    Ok(Instruction { program_id, accounts, data })
}

} // verus!
