//! The ways in which a delegation ends without success.

use vstd::prelude::*;

verus! {

/// The reason with which a program refuses an instruction,
/// `solana_program::program_error::ProgramError`. A value of it is handed on
/// as it came and never looked into.
#[verifier::external_type_specification]
#[verifier::external_body]
pub struct ExProgramError(solana_program::program_error::ProgramError);

/// Why a delegation was aborted.
#[derive(Debug, PartialEq, Eq)]
pub enum ErrorCode {
    /// The account given as the metadata record is not the record that
    /// belongs to the mint.
    Unauthorized,
    /// The metadata program refused an instruction, for the reason it gave.
    DispatchRejected(solana_program::program_error::ProgramError),
    /// The arguments of an instruction could not be serialised: a string in
    /// them is too long for its length prefix.
    EncodingInvariantViolation,
    /// The account given as the metadata program is not the metadata program.
    IncorrectProgramId,
}

} // verus!
