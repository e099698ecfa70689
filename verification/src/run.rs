//! Whole runs of the handler: what it dispatches and how it ends, whatever
//! its surroundings answer.

use vstd::prelude::*;
use crate::error::ErrorCode;
use crate::handler::{names_derived, transition, ActionView, Event, Phase};
use crate::handler::SetMetaplexUpdateAuthority;
use crate::instruction::{
    lemma_create_payload_without_content, lemma_update_payload_of_authority, AccountMeta,
};
use crate::pda::METADATA_PROGRAM_ID;
use crate::pubkey::lemma_pubkey_view_injective;
use crate::signer::DispatchCallView;

verus! {

/// How a run ended: the dispatches made, in order, and what the caller gets.
pub struct Outcome {
    pub dispatched: Seq<DispatchCallView>,
    pub result: Result<(), ErrorCode>,
}

/// The event that reports the metadata program's answer to a dispatch:
/// `None` for acceptance, else the reason of the refusal.
pub open spec fn dispatch_event(
    answer: Option<solana_program::program_error::ProgramError>,
) -> Event {
    match answer {
        None => Event::DispatchSucceeded,
        Some(reason) => Event::DispatchFailed(reason),
    }
}

/// The run from `phase` on `event`, with at most `fuel` transitions: each
/// action is performed and its event fed back, until the handler succeeds or
/// fails. `record_exists` answers the probe and `verdict` each dispatch.
/// `None` where the handler has no transition or the fuel runs out.
pub open spec fn run_from(
    accounts: SetMetaplexUpdateAuthority,
    derived: Option<(Seq<u8>, u8)>,
    record_exists: bool,
    verdict: spec_fn(DispatchCallView) -> Option<solana_program::program_error::ProgramError>,
    phase: Phase,
    event: Event,
    fuel: nat,
) -> Option<Outcome>
    decreases fuel,
{
    if fuel == 0 {
        None
    } else {
        match transition(accounts, derived, phase, event) {
            None => None,
            Some((next, action)) => match action {
                ActionView::Succeed => Some(Outcome { dispatched: Seq::empty(), result: Ok(()) }),
                ActionView::Fail(code) => Some(
                    Outcome { dispatched: Seq::empty(), result: Err(code) },
                ),
                ActionView::ProbeRecord => run_from(
                    accounts,
                    derived,
                    record_exists,
                    verdict,
                    next,
                    Event::RecordProbed { exists: record_exists },
                    (fuel - 1) as nat,
                ),
                ActionView::Dispatch(call) => match run_from(
                    accounts,
                    derived,
                    record_exists,
                    verdict,
                    next,
                    dispatch_event(verdict(call)),
                    (fuel - 1) as nat,
                ) {
                    None => None,
                    Some(rest) => Some(
                        Outcome { dispatched: seq![call] + rest.dispatched, result: rest.result },
                    ),
                },
            },
        }
    }
}

/// The run of one request from its arrival.
pub open spec fn run(
    accounts: SetMetaplexUpdateAuthority,
    derived: Option<(Seq<u8>, u8)>,
    record_exists: bool,
    verdict: spec_fn(DispatchCallView) -> Option<solana_program::program_error::ProgramError>,
) -> Option<Outcome> {
    run_from(accounts, derived, record_exists, verdict, Phase::Start, Event::Invoked, 4)
}

/// Whether a request passes both checks: the program account is the
/// metadata program and the record account is the derived one.
pub open spec fn accepted(accounts: SetMetaplexUpdateAuthority, derived: Option<(Seq<u8>, u8)>)
    -> bool {
    accounts.names_metadata_program() && names_derived(derived, accounts.metadata_info@)
}

/// What the caller gets once the metadata program has answered the last
/// dispatch: success, or the failure with the reason it gave.
pub open spec fn result_of(answer: Option<solana_program::program_error::ProgramError>) -> Result<
    (),
    ErrorCode,
> {
    match answer {
        None => Ok(()),
        Some(reason) => Err(ErrorCode::DispatchRejected(reason)),
    }
}

/// What a request comes to, stated without the machine: nothing is
/// dispatched unless both checks pass; then the creation is dispatched
/// where the record is missing, and the update once the record is there;
/// the first refusal ends the request.
pub open spec fn outcome_of(
    accounts: SetMetaplexUpdateAuthority,
    derived: Option<(Seq<u8>, u8)>,
    record_exists: bool,
    verdict: spec_fn(DispatchCallView) -> Option<solana_program::program_error::ProgramError>,
) -> Outcome {
    let create = accounts.create_call();
    let update = accounts.update_call();
    if !accounts.names_metadata_program() {
        Outcome { dispatched: Seq::empty(), result: Err(ErrorCode::IncorrectProgramId) }
    } else if !names_derived(derived, accounts.metadata_info@) {
        Outcome { dispatched: Seq::empty(), result: Err(ErrorCode::Unauthorized) }
    } else if record_exists {
        Outcome { dispatched: seq![update], result: result_of(verdict(update)) }
    } else if verdict(create) is Some {
        Outcome { dispatched: seq![create], result: result_of(verdict(create)) }
    } else {
        Outcome { dispatched: seq![create, update], result: result_of(verdict(update)) }
    }
}

/// Every run ends within four transitions, and comes to what `outcome_of`
/// says, whatever the surroundings answer.
pub proof fn lemma_run_is_outcome(
    accounts: SetMetaplexUpdateAuthority,
    derived: Option<(Seq<u8>, u8)>,
    record_exists: bool,
    verdict: spec_fn(DispatchCallView) -> Option<solana_program::program_error::ProgramError>,
)
    ensures
        run(accounts, derived, record_exists, verdict) == Some(
            outcome_of(accounts, derived, record_exists, verdict),
        ),
{
    reveal_with_fuel(run_from, 5);
    let outcome = run(accounts, derived, record_exists, verdict).unwrap();
    assert(outcome.dispatched =~= outcome_of(
        accounts,
        derived,
        record_exists,
        verdict,
    ).dispatched);
}

/// Where the record does not exist yet and the metadata program accepts
/// both instructions, exactly two are dispatched, the creation and then the
/// update, and the request succeeds.
pub proof fn lemma_missing_record_is_created_then_updated(
    accounts: SetMetaplexUpdateAuthority,
    derived: Option<(Seq<u8>, u8)>,
    verdict: spec_fn(DispatchCallView) -> Option<solana_program::program_error::ProgramError>,
)
    requires
        accepted(accounts, derived),
        verdict(accounts.create_call()) is None,
        verdict(accounts.update_call()) is None,
    ensures
        run(accounts, derived, false, verdict) == Some(
            Outcome {
                dispatched: seq![accounts.create_call(), accounts.update_call()],
                result: Ok(()),
            },
        ),
{
    lemma_run_is_outcome(accounts, derived, false, verdict);
}

/// Where the record exists and the metadata program accepts the update,
/// exactly one instruction is dispatched, the update, and the request
/// succeeds.
pub proof fn lemma_present_record_is_updated_only(
    accounts: SetMetaplexUpdateAuthority,
    derived: Option<(Seq<u8>, u8)>,
    verdict: spec_fn(DispatchCallView) -> Option<solana_program::program_error::ProgramError>,
)
    requires
        accepted(accounts, derived),
        verdict(accounts.update_call()) is None,
    ensures
        run(accounts, derived, true, verdict) == Some(
            Outcome { dispatched: seq![accounts.update_call()], result: Ok(()) },
        ),
{
    lemma_run_is_outcome(accounts, derived, true, verdict);
}

/// A record account other than the derived one ends the request with
/// `Unauthorized` before anything is dispatched.
pub proof fn lemma_foreign_record_is_unauthorized(
    accounts: SetMetaplexUpdateAuthority,
    derived: Option<(Seq<u8>, u8)>,
    record_exists: bool,
    verdict: spec_fn(DispatchCallView) -> Option<solana_program::program_error::ProgramError>,
)
    requires
        accounts.names_metadata_program(),
        !names_derived(derived, accounts.metadata_info@),
    ensures
        run(accounts, derived, record_exists, verdict) == Some(
            Outcome { dispatched: Seq::empty(), result: Err(ErrorCode::Unauthorized) },
        ),
{
    lemma_run_is_outcome(accounts, derived, record_exists, verdict);
}

/// A program account other than the metadata program ends the request
/// before anything is derived or dispatched.
pub proof fn lemma_foreign_program_is_rejected(
    accounts: SetMetaplexUpdateAuthority,
    derived: Option<(Seq<u8>, u8)>,
    record_exists: bool,
    verdict: spec_fn(DispatchCallView) -> Option<solana_program::program_error::ProgramError>,
)
    requires
        !accounts.names_metadata_program(),
    ensures
        run(accounts, derived, record_exists, verdict) == Some(
            Outcome { dispatched: Seq::empty(), result: Err(ErrorCode::IncorrectProgramId) },
        ),
{
    lemma_run_is_outcome(accounts, derived, record_exists, verdict);
}

/// A refused creation ends the request with the reason the metadata program
/// gave, and the update is never dispatched.
pub proof fn lemma_refused_creation_aborts(
    accounts: SetMetaplexUpdateAuthority,
    derived: Option<(Seq<u8>, u8)>,
    verdict: spec_fn(DispatchCallView) -> Option<solana_program::program_error::ProgramError>,
)
    requires
        accepted(accounts, derived),
        verdict(accounts.create_call()) is Some,
    ensures
        run(accounts, derived, false, verdict) == Some(
            Outcome {
                dispatched: seq![accounts.create_call()],
                result: Err(ErrorCode::DispatchRejected(verdict(accounts.create_call())->Some_0)),
            },
        ),
{
    lemma_run_is_outcome(accounts, derived, false, verdict);
}

/// A refused update ends the request with the reason the metadata program
/// gave, whether or not the record had to be created first.
pub proof fn lemma_refused_update_aborts(
    accounts: SetMetaplexUpdateAuthority,
    derived: Option<(Seq<u8>, u8)>,
    record_exists: bool,
    verdict: spec_fn(DispatchCallView) -> Option<solana_program::program_error::ProgramError>,
)
    requires
        accepted(accounts, derived),
        !record_exists ==> verdict(accounts.create_call()) is None,
        verdict(accounts.update_call()) is Some,
    ensures
        run(accounts, derived, record_exists, verdict) matches Some(outcome)
            && outcome.dispatched.len() > 0 && outcome.dispatched.last() == accounts.update_call()
            && outcome.result == Err::<(), ErrorCode>(
            ErrorCode::DispatchRejected(verdict(accounts.update_call())->Some_0),
        ),
{
    lemma_run_is_outcome(accounts, derived, record_exists, verdict);
}

/// A run that succeeds has dispatched the update last, and every dispatch
/// of any run is the creation or the update of this request.
pub proof fn lemma_success_means_update_dispatched(
    accounts: SetMetaplexUpdateAuthority,
    derived: Option<(Seq<u8>, u8)>,
    record_exists: bool,
    verdict: spec_fn(DispatchCallView) -> Option<solana_program::program_error::ProgramError>,
)
    ensures
        run(accounts, derived, record_exists, verdict) matches Some(outcome) && (forall|i: int|
            0 <= i < outcome.dispatched.len() ==> {
                ||| #[trigger] outcome.dispatched[i] == accounts.create_call()
                ||| outcome.dispatched[i] == accounts.update_call()
            }) && (outcome.result is Ok ==> outcome.dispatched.len() > 0
            && outcome.dispatched.last() == accounts.update_call()),
{
    lemma_run_is_outcome(accounts, derived, record_exists, verdict);
}

/// Whatever the surroundings answer, every dispatch of a run goes to the
/// metadata program and names the derived record of the mint as the account
/// to write to: nothing is dispatched unless both checks have passed.
pub proof fn lemma_dispatches_reach_the_derived_record_only(
    accounts: SetMetaplexUpdateAuthority,
    derived: Option<(Seq<u8>, u8)>,
    record_exists: bool,
    verdict: spec_fn(DispatchCallView) -> Option<solana_program::program_error::ProgramError>,
)
    ensures
        run(accounts, derived, record_exists, verdict) matches Some(outcome) && (forall|i: int|
            0 <= i < outcome.dispatched.len() ==> {
                &&& (#[trigger] outcome.dispatched[i]).instruction.program_id@
                    == METADATA_PROGRAM_ID@
                &&& names_derived(derived, outcome.dispatched[i].instruction.accounts[0].pubkey@)
                &&& outcome.dispatched[i].instruction.accounts[0].is_writable
                &&& outcome.dispatched[i].signer_seeds == accounts.mint_wrapper.signer_seeds()
            }),
{
    lemma_run_is_outcome(accounts, derived, record_exists, verdict);
}

/// The arguments of both dispatches can always be serialised: no run ends
/// with `EncodingInvariantViolation`.
pub proof fn lemma_encoding_never_fails(
    accounts: SetMetaplexUpdateAuthority,
    derived: Option<(Seq<u8>, u8)>,
    record_exists: bool,
    verdict: spec_fn(DispatchCallView) -> Option<solana_program::program_error::ProgramError>,
)
    ensures
        run(accounts, derived, record_exists, verdict) matches Some(outcome) && outcome.result
            != Err::<(), ErrorCode>(ErrorCode::EncodingInvariantViolation),
{
    lemma_run_is_outcome(accounts, derived, record_exists, verdict);
}

/// The two dispatches have a fixed shape: the creation carries opcode 33 and
/// six accounts, the update opcode 15 and two, whatever the request.
pub proof fn lemma_dispatches_have_fixed_shape(accounts: SetMetaplexUpdateAuthority)
    ensures
        accounts.create_call().instruction.data[0] == 33,
        accounts.create_call().instruction.data.len() == 20,
        accounts.create_call().instruction.accounts.len() == 6,
        accounts.update_call().instruction.data[0] == 15,
        accounts.update_call().instruction.data.len() == 38,
        accounts.update_call().instruction.accounts.len() == 2,
{
    lemma_create_payload_without_content();
    lemma_update_payload_of_authority(accounts.new_update_authority);
}

/// The update names the requested account as the record's new update
/// authority, whichever account that is, while the account that signs it is
/// the mint wrapper. It changes nothing else of the record.
pub proof fn lemma_update_names_requested_authority(accounts: SetMetaplexUpdateAuthority)
    ensures
        accounts.update_call().instruction.data =~= seq![15u8, 0u8, 1u8]
            + accounts.new_update_authority@ + seq![0u8, 1u8, 1u8],
        accounts.update_call().instruction.data.subrange(3, 35)
            =~= accounts.new_update_authority@,
        accounts.new_update_authority != accounts.mint_wrapper.key
            ==> accounts.update_call().instruction.data.subrange(3, 35)
            != accounts.mint_wrapper.key@,
        accounts.update_call().instruction.accounts[1] == (AccountMeta {
            pubkey: accounts.mint_wrapper.key,
            is_signer: true,
            is_writable: false,
        }),
        accounts.update_call().signer_seeds == accounts.mint_wrapper.signer_seeds(),
{
    lemma_update_payload_of_authority(accounts.new_update_authority);
    let named = accounts.update_call().instruction.data.subrange(3, 35);
    assert(named =~= accounts.new_update_authority@);
    if named == accounts.mint_wrapper.key@ {
        lemma_pubkey_view_injective(accounts.new_update_authority, accounts.mint_wrapper.key);
    }
}

} // verus!
