//! Delegation of a metadata record's update authority to a program-owned
//! mint wrapper: address derivation, instruction encoding, vault signing and
//! the handler's transitions.

pub mod error;
pub mod handler;
pub mod instruction;
pub mod pda;
pub mod pubkey;
pub mod run;
pub mod signer;
pub mod wire;
