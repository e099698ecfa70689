//! Derivation of the one record address that belongs to a mint in a registry.

use vstd::prelude::*;
use crate::pubkey::{lemma_pubkey_view_injective, Pubkey};

verus! {

/// The bytes of the metadata program's address: the registry that owns every
/// metadata record.
pub const METADATA_PROGRAM_ID: [u8; 32] = [
    11, 112, 101, 177, 227, 209, 124, 69, 56, 157, 82, 127, 107, 4, 195, 205, 88, 184, 108, 115, 26,
    160, 253, 181, 73, 182, 209, 188, 3, 248, 41, 70,
];

/// The address of the metadata program.
pub fn metadata_program_id() -> (id: Pubkey)
    ensures
        id.0 == METADATA_PROGRAM_ID,
        id@ == METADATA_PROGRAM_ID@,
{
    Pubkey(METADATA_PROGRAM_ID)
}

/// The namespace tag of metadata records: the ASCII bytes of `metadata`.
pub const PREFIX: [u8; 8] = [109, 101, 116, 97, 100, 97, 116, 97];

/// The program address that `seeds` and `program_id` derive, with its bump
/// seed, or `None` where no bump seed gives an address off the curve.
pub uninterp spec fn program_address(seeds: Seq<Seq<u8>>, program_id: Seq<u8>) -> Option<
    (Seq<u8>, u8),
>;

/// The seeds of a mint's record in a registry: the tag, the registry, the
/// mint.
pub open spec fn record_seeds(registry: Seq<u8>, mint: Seq<u8>) -> Seq<Seq<u8>> {
    seq![PREFIX@, registry, mint]
}

/// The address of the record of `mint` in `registry` with its bump seed, if
/// one exists: the registry's program address for the record's seeds.
pub open spec fn record_address(registry: Seq<u8>, mint: Seq<u8>) -> Option<(Seq<u8>, u8)> {
    program_address(record_seeds(registry, mint), registry)
}

/// The metadata record address of `mint` with its bump seed, if one exists.
pub open spec fn metadata_address(mint: Seq<u8>) -> Option<(Seq<u8>, u8)> {
    record_address(METADATA_PROGRAM_ID@, mint)
}

/// The outcome of a derivation as a mathematical value.
pub open spec fn derived_view(derived: Option<(Pubkey, u8)>) -> Option<(Seq<u8>, u8)> {
    match derived {
        Some((address, bump)) => Some((address@, bump)),
        None => None,
    }
}

/// `Pubkey::try_find_program_address` of solana_program. The search hashes the
/// seeds, a bump seed and the program id, and depends on nothing else, so the
/// outcome is `program_address` of the seeds' bytes and the program's bytes.
#[verifier::external_body]
fn try_find_program_address(seeds: &[&[u8]], program_id: &Pubkey) -> (found: Option<(Pubkey, u8)>)
    ensures
        derived_view(found) == program_address(seeds.deep_view(), program_id@),
{
    let program = solana_program::pubkey::Pubkey::new_from_array(program_id.0);
    solana_program::pubkey::Pubkey::try_find_program_address(seeds, &program).map(
        |(address, bump)| (Pubkey(address.to_bytes()), bump),
    )
}

/// Derives the address of the record of `mint` in `registry` and its bump
/// seed, or `None` where the derivation has no result.
pub fn derive_record_address(registry: &Pubkey, mint: &Pubkey) -> (found: Option<(Pubkey, u8)>)
    ensures
        derived_view(found) == record_address(registry@, mint@),
{
    let prefix = PREFIX;
    let seeds: [&[u8]; 3] = [prefix.as_slice(), registry.0.as_slice(), mint.0.as_slice()];
    let seeds = seeds.as_slice();
    proof {
        assert(seeds.deep_view() =~~= record_seeds(registry@, mint@));
    }
    try_find_program_address(seeds, registry)
}

/// Finds the metadata record address of `mint` and its bump seed, or `None`
/// where the derivation has no result.
pub fn try_find_metadata_account(mint: &Pubkey) -> (found: Option<(Pubkey, u8)>)
    ensures
        derived_view(found) == metadata_address(mint@),
{
    let id = metadata_program_id();
    match derive_record_address(&id, mint) {
        Some(_) => Some(find_metadata_account(mint)),
        None => None,
    }
}

/// Finds the metadata record address of `mint` and its bump seed.
pub fn find_metadata_account(mint: &Pubkey) -> (found: (Pubkey, u8))
    requires
        metadata_address(mint@) is Some,
    ensures
        derived_view(Some(found)) == metadata_address(mint@),
{
    let id = metadata_program_id();
    match derive_record_address(&id, mint) {
        Some(found) => found,
        None => vstd::pervasive::unreached(),
    }
}

/// The derivation is a function of the bytes of the registry and the mint
/// alone: any two outcomes for the same pair are the same address with the
/// same bump seed, or both are none.
pub proof fn lemma_derivation_is_deterministic(
    registry: Pubkey,
    mint: Pubkey,
    same_registry: Pubkey,
    same_mint: Pubkey,
    first: Option<(Pubkey, u8)>,
    second: Option<(Pubkey, u8)>,
)
    requires
        registry@ == same_registry@,
        mint@ == same_mint@,
        derived_view(first) == record_address(registry@, mint@),
        derived_view(second) == record_address(same_registry@, same_mint@),
    ensures
        first == second,
{
    if let Some((a, _)) = first {
        if let Some((b, _)) = second {
            lemma_pubkey_view_injective(a, b);
        }
    }
}

} // verus!
