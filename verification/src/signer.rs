//! Signing for the mint wrapper: the program signs with the seeds that the
//! wrapper's address was derived from, and holds no private key.

use vstd::prelude::*;
use vstd::slice::slice_to_vec;
use crate::instruction::{Instruction, InstructionView};
use crate::pubkey::Pubkey;

verus! {

/// The tag that begins every mint wrapper's seeds: the ASCII bytes of
/// `MintWrapper`.
pub const MINT_WRAPPER_SEED: [u8; 11] = [77, 105, 110, 116, 87, 114, 97, 112, 112, 101, 114];

/// The mint wrapper: the vault that owns a mint and acts as the update
/// authority of its metadata record between delegations.
#[derive(Clone, Copy, Debug, PartialEq, Eq)]
pub struct MintWrapper {
    /// The wrapper's own address.
    pub key: Pubkey,
    /// The base address that the wrapper was derived from.
    pub base: Pubkey,
    /// The bump seed of the wrapper's address.
    pub bump: u8,
}

impl MintWrapper {
    /// The seeds that stand for the wrapper's signature: the tag, the base
    /// and the bump seed.
    pub open spec fn signer_seeds(&self) -> Seq<Seq<u8>> {
        seq![MINT_WRAPPER_SEED@, self.base@, seq![self.bump]]
    }

    /// Builds the wrapper's signer seeds.
    pub fn gen_wrapper_signer_seeds(&self) -> (seeds: Vec<Vec<u8>>)
        ensures
            seeds.deep_view() == self.signer_seeds(),
    {
        let mut bump: Vec<u8> = Vec::new();
        bump.push(self.bump);
        let mut seeds: Vec<Vec<u8>> = Vec::new();
        seeds.push(slice_to_vec(MINT_WRAPPER_SEED.as_slice()));
        seeds.push(slice_to_vec(self.base.0.as_slice()));
        seeds.push(bump);
        proof {
            assert(seeds.deep_view() =~~= self.signer_seeds());
        }
        seeds
    }
}

/// One instruction ready to be dispatched with the wrapper's signature. The
/// seeds are built for this dispatch alone: the value cannot be copied.
#[derive(Debug, PartialEq, Eq)]
pub struct DispatchCall {
    /// The instruction to dispatch.
    pub instruction: Instruction,
    /// The seeds of the one program-derived signer.
    pub signer_seeds: Vec<Vec<u8>>,
}

/// A dispatch as a mathematical value.
pub struct DispatchCallView {
    pub instruction: InstructionView,
    pub signer_seeds: Seq<Seq<u8>>,
}

impl View for DispatchCall {
    type V = DispatchCallView;

    open spec fn view(&self) -> DispatchCallView {
        DispatchCallView {
            instruction: self.instruction@,
            signer_seeds: self.signer_seeds.deep_view(),
        }
    }
}

/// Attaches the wrapper's signer seeds to `instruction`.
pub fn sign_as_vault(vault: &MintWrapper, instruction: Instruction) -> (call: DispatchCall)
    ensures
        call@.instruction == instruction@,
        call@.signer_seeds == vault.signer_seeds(),
{
    let signer_seeds = vault.gen_wrapper_signer_seeds();
    DispatchCall { instruction, signer_seeds }
}

} // verus!
