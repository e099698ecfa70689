//! The handler that makes a mint's metadata record follow a new update
//! authority, as a machine that is told what happened outside and answers
//! with what to do next.

use vstd::prelude::*;
use crate::error::ErrorCode;
use crate::instruction::{
    create_accounts, create_metadata_accounts_v3, create_payload, update_accounts,
    update_metadata_accounts_v2, update_payload, Instruction, InstructionView,
};
use crate::pda::{derive_record_address, metadata_address, metadata_program_id};
use crate::pda::{derived_view, METADATA_PROGRAM_ID};
use crate::pubkey::{lemma_pubkey_view_injective, Pubkey};
use crate::signer::{sign_as_vault, DispatchCall, DispatchCallView, MintWrapper};

verus! {

/// The accounts of one delegation request.
#[derive(Clone, Copy, Debug, PartialEq, Eq)]
pub struct SetMetaplexUpdateAuthority {
    /// The mint wrapper, which signs both instructions.
    pub mint_wrapper: MintWrapper,
    /// The minter's authority, which pays for a new record.
    pub minter_authority: Pubkey,
    /// The token mint whose record is managed.
    pub token_mint: Pubkey,
    /// The program that is to execute the instructions.
    pub metadata_program: Pubkey,
    /// The account that is to hold the mint's metadata record.
    pub metadata_info: Pubkey,
    /// The account that becomes the record's update authority.
    pub new_update_authority: Pubkey,
    /// The system program.
    pub system_program: Pubkey,
    /// The instructions sysvar.
    pub sysvar_instructions: Pubkey,
}

impl SetMetaplexUpdateAuthority {
    /// Whether the program account is the metadata program.
    pub open spec fn names_metadata_program(&self) -> bool {
        self.metadata_program@ == METADATA_PROGRAM_ID@
    }

    /// The dispatch that creates the record: empty descriptive fields, the
    /// mint wrapper as mint authority and as first update authority, the
    /// minter's authority as payer.
    pub open spec fn create_call(&self) -> DispatchCallView {
        DispatchCallView {
            instruction: InstructionView {
                program_id: self.metadata_program,
                accounts: create_accounts(
                    self.metadata_info,
                    self.token_mint,
                    self.mint_wrapper.key,
                    self.minter_authority,
                    self.mint_wrapper.key,
                ),
                data: create_payload(Seq::empty(), Seq::empty(), Seq::empty()),
            },
            signer_seeds: self.mint_wrapper.signer_seeds(),
        }
    }

    /// The dispatch that hands the record over: the mint wrapper as current
    /// authority, the requested account as the new one, a mutable record, and
    /// nothing else changed.
    pub open spec fn update_call(&self) -> DispatchCallView {
        DispatchCallView {
            instruction: InstructionView {
                program_id: self.metadata_program,
                accounts: update_accounts(self.metadata_info, self.mint_wrapper.key),
                data: update_payload(Some(self.new_update_authority), None, None, Some(true)),
            },
            signer_seeds: self.mint_wrapper.signer_seeds(),
        }
    }
}

/// Whether a derivation has a result and `address` is that result.
pub open spec fn names_derived(derived: Option<(Seq<u8>, u8)>, address: Seq<u8>) -> bool {
    derived matches Some((expected, _)) && expected == address
}

/// Whether `address` is the metadata record address derived for `mint`.
pub open spec fn is_metadata_address(address: Seq<u8>, mint: Seq<u8>) -> bool {
    names_derived(metadata_address(mint), address)
}

/// A mint has at most one record address: two addresses that both pass for
/// the same mint are the same address.
pub proof fn lemma_one_record_address_per_mint(first: Pubkey, second: Pubkey, mint: Pubkey)
    requires
        is_metadata_address(first@, mint@),
        is_metadata_address(second@, mint@),
    ensures
        first == second,
{
    lemma_pubkey_view_injective(first, second);
}

/// Holds a supplied record address against the outcome of the derivation:
/// only the derived address itself passes.
pub fn check_derived_address(derived: Option<(Pubkey, u8)>, metadata_address: &Pubkey) -> (checked:
    Result<(), ErrorCode>)
    ensures
        checked is Ok <==> names_derived(derived_view(derived), metadata_address@),
        checked matches Err(code) ==> code == ErrorCode::Unauthorized,
{
    match derived {
        Some((metadata_account_pubkey, _)) => {
            if metadata_account_pubkey == *metadata_address {
                Ok(())
            } else {
                Err(ErrorCode::Unauthorized)
            }
        },
        None => Err(ErrorCode::Unauthorized),
    }
}

/// Checks that `metadata_address` is the record address derived for `mint`.
pub fn check_mpl_metadata_account_address(metadata_address: &Pubkey, mint: &Pubkey) -> (checked:
    Result<(), ErrorCode>)
    ensures
        checked is Ok <==> is_metadata_address(metadata_address@, mint@),
        checked matches Err(code) ==> code == ErrorCode::Unauthorized,
{
    let id = metadata_program_id();
    check_derived_address(derive_record_address(&id, mint), metadata_address)
}

/// How far a delegation has come. A record that is present, and one that
/// has just been created, both lead straight on to `UpdatePending`.
#[derive(Clone, Copy, Debug, PartialEq, Eq)]
pub enum Phase {
    /// Nothing has been checked yet.
    Start,
    /// The record account is the canonical one; whether the record exists is
    /// being looked up.
    AddressValidated,
    /// The record does not exist yet; its creation has been dispatched.
    RecordMissing,
    /// The record exists; the update has been dispatched.
    UpdatePending,
    /// The update was accepted.
    Done,
    /// The delegation was aborted.
    Failed,
}

/// What happened outside the handler.
#[derive(Debug, PartialEq, Eq)]
pub enum Event {
    /// The request arrived.
    Invoked,
    /// It was looked up whether the record account holds a record.
    RecordProbed { exists: bool },
    /// The metadata program accepted the instruction dispatched last.
    DispatchSucceeded,
    /// The metadata program refused the instruction dispatched last.
    DispatchFailed(solana_program::program_error::ProgramError),
}

/// What the handler asks for next.
#[derive(Debug, PartialEq, Eq)]
pub enum Action {
    /// Look up whether the record account holds a record.
    ProbeRecord,
    /// Dispatch this instruction with the mint wrapper's signature.
    Dispatch(DispatchCall),
    /// Return success to the caller.
    Succeed,
    /// Return this error to the caller; nothing may be dispatched any more.
    Fail(ErrorCode),
}

/// An action as a mathematical value.
pub enum ActionView {
    ProbeRecord,
    Dispatch(DispatchCallView),
    Succeed,
    Fail(ErrorCode),
}

impl View for Action {
    type V = ActionView;

    open spec fn view(&self) -> ActionView {
        match self {
            Action::ProbeRecord => ActionView::ProbeRecord,
            Action::Dispatch(call) => ActionView::Dispatch(call@),
            Action::Succeed => ActionView::Succeed,
            Action::Fail(code) => ActionView::Fail(*code),
        }
    }
}

/// One transition: the phase reached and the action asked for.
#[derive(Debug, PartialEq, Eq)]
pub struct Step {
    pub phase: Phase,
    pub action: Action,
}

impl View for Step {
    type V = (Phase, ActionView);

    open spec fn view(&self) -> (Phase, ActionView) {
        (self.phase, self.action@)
    }
}

/// The handler's transitions, given the outcome of deriving the mint's
/// record address. An event that the phase does not wait for has no
/// transition. Only the first transition looks at `derived`.
pub open spec fn transition(
    accounts: SetMetaplexUpdateAuthority,
    derived: Option<(Seq<u8>, u8)>,
    phase: Phase,
    event: Event,
) -> Option<(Phase, ActionView)> {
    match (phase, event) {
        (Phase::Start, Event::Invoked) => Some(
            if !accounts.names_metadata_program() {
                (Phase::Failed, ActionView::Fail(ErrorCode::IncorrectProgramId))
            } else if !names_derived(derived, accounts.metadata_info@) {
                (Phase::Failed, ActionView::Fail(ErrorCode::Unauthorized))
            } else {
                (Phase::AddressValidated, ActionView::ProbeRecord)
            },
        ),
        (Phase::AddressValidated, Event::RecordProbed { exists }) => Some(
            if exists {
                (Phase::UpdatePending, ActionView::Dispatch(accounts.update_call()))
            } else {
                (Phase::RecordMissing, ActionView::Dispatch(accounts.create_call()))
            },
        ),
        (Phase::RecordMissing, Event::DispatchSucceeded) => Some(
            (Phase::UpdatePending, ActionView::Dispatch(accounts.update_call())),
        ),
        (Phase::RecordMissing, Event::DispatchFailed(reason)) => Some(
            (Phase::Failed, ActionView::Fail(ErrorCode::DispatchRejected(reason))),
        ),
        (Phase::UpdatePending, Event::DispatchSucceeded) => Some(
            (Phase::Done, ActionView::Succeed),
        ),
        (Phase::UpdatePending, Event::DispatchFailed(reason)) => Some(
            (Phase::Failed, ActionView::Fail(ErrorCode::DispatchRejected(reason))),
        ),
        _ => None,
    }
}

/// The view of a step that may be absent.
pub open spec fn step_view(step: Option<Step>) -> Option<(Phase, ActionView)> {
    match step {
        Some(step) => Some(step@),
        None => None,
    }
}

/// The action that dispatches `built` with the mint wrapper's signature and
/// leads to `phase`, or the failure where nothing was built.
fn dispatch(vault: &MintWrapper, built: Result<Instruction, ErrorCode>, phase: Phase) -> (step:
    Step)
    ensures
        built matches Ok(instruction) ==> step@ == (
            phase,
            ActionView::Dispatch(
                DispatchCallView {
                    instruction: instruction@,
                    signer_seeds: vault.signer_seeds(),
                },
            ),
        ),
        built matches Err(code) ==> step@ == (Phase::Failed, ActionView::Fail(code)),
{
    match built {
        Ok(instruction) => Step {
            phase,
            action: Action::Dispatch(sign_as_vault(vault, instruction)),
        },
        Err(code) => Step { phase: Phase::Failed, action: Action::Fail(code) },
    }
}

/// Dispatches the creation of the record, which leads to `RecordMissing`.
/// Its arguments have a fixed shape, so they can always be serialised.
fn dispatch_create(accounts: &SetMetaplexUpdateAuthority) -> (step: Step)
    ensures
        step@ == (Phase::RecordMissing, ActionView::Dispatch(accounts.create_call())),
{
    let built = create_metadata_accounts_v3(
        accounts.metadata_program,
        accounts.metadata_info,
        accounts.token_mint,
        accounts.mint_wrapper.key,
        accounts.minter_authority,
        accounts.mint_wrapper.key,
        String::new(),
        String::new(),
        String::new(),
    );
    dispatch(&accounts.mint_wrapper, built, Phase::RecordMissing)
}

/// Dispatches the update that hands the record over, which leads to
/// `UpdatePending`. Its arguments have a fixed shape too.
fn dispatch_update(accounts: &SetMetaplexUpdateAuthority) -> (step: Step)
    ensures
        step@ == (Phase::UpdatePending, ActionView::Dispatch(accounts.update_call())),
{
    let built = update_metadata_accounts_v2(
        accounts.metadata_program,
        accounts.metadata_info,
        accounts.mint_wrapper.key,
        Some(accounts.new_update_authority),
        None,
        None,
        Some(true),
    );
    dispatch(&accounts.mint_wrapper, built, Phase::UpdatePending)
}

/// Advances the delegation by one event, given the outcome of deriving the
/// mint's record address: the phase reached and the action to perform, or
/// `None` where `phase` does not wait for `event`.
pub fn advance(
    accounts: &SetMetaplexUpdateAuthority,
    derived: Option<(Pubkey, u8)>,
    phase: Phase,
    event: Event,
) -> (step: Option<Step>)
    ensures
        step_view(step) == transition(*accounts, derived_view(derived), phase, event),
{
    match phase {
        Phase::Start => match event {
            Event::Invoked => {
                if !(accounts.metadata_program == metadata_program_id()) {
                    return Some(
                        Step {
                            phase: Phase::Failed,
                            action: Action::Fail(ErrorCode::IncorrectProgramId),
                        },
                    );
                }
                match check_derived_address(derived, &accounts.metadata_info) {
                    Ok(()) => Some(
                        Step { phase: Phase::AddressValidated, action: Action::ProbeRecord },
                    ),
                    Err(code) => Some(Step { phase: Phase::Failed, action: Action::Fail(code) }),
                }
            },
            _ => None,
        },
        Phase::AddressValidated => match event {
            Event::RecordProbed { exists } => {
                if exists {
                    Some(dispatch_update(accounts))
                } else {
                    Some(dispatch_create(accounts))
                }
            },
            _ => None,
        },
        Phase::RecordMissing => match event {
            Event::DispatchSucceeded => Some(dispatch_update(accounts)),
            Event::DispatchFailed(reason) => Some(
                Step {
                    phase: Phase::Failed,
                    action: Action::Fail(ErrorCode::DispatchRejected(reason)),
                },
            ),
            _ => None,
        },
        Phase::UpdatePending => match event {
            Event::DispatchSucceeded => Some(Step { phase: Phase::Done, action: Action::Succeed }),
            Event::DispatchFailed(reason) => Some(
                Step {
                    phase: Phase::Failed,
                    action: Action::Fail(ErrorCode::DispatchRejected(reason)),
                },
            ),
            _ => None,
        },
        Phase::Done => None,
        Phase::Failed => None,
    }
}

/// Advances the delegation by one event: the phase reached and the action to
/// perform, or `None` where `phase` does not wait for `event`. The record
/// address is derived when the request arrives, and at no other time.
pub fn handler(accounts: &SetMetaplexUpdateAuthority, phase: Phase, event: Event) -> (step:
    Option<Step>)
    ensures
        step_view(step) == transition(
            *accounts,
            metadata_address(accounts.token_mint@),
            phase,
            event,
        ),
{
    let derived = match (&phase, &event) {
        (Phase::Start, Event::Invoked) => {
            let id = metadata_program_id();
            if accounts.metadata_program == id {
                derive_record_address(&id, &accounts.token_mint)
            } else {
                None
            }
        },
        _ => None,
    };
    advance(accounts, derived, phase, event)
}

} // verus!
