//! The calls that drive a ballot from its creation to its result.
//!
//! Every call is one atomic step: it is handed the host's context, the
//! ballot's state and what the engine shows, and either returns the next
//! state with its requests to the engine, or refuses with an error and
//! leaves everything as it was.

use vstd::prelude::*;
use crate::address::Address;
use crate::engine::{
    request_views, status_after, EngineRequest, EngineRequestView, EngineState, EngineStateView,
    EngineStatus, InputDef, Role, SecretVarId,
};
use crate::error::VotingError;
use crate::result::{determine_result, VoteResult};
use crate::state::{CallContext, ContractState};
use crate::tally::read_variable_u32_le;

verus! {

/// The number of bits of a secret ballot.
pub const BITLENGTH_OF_SECRET_VOTE_VARIABLES: u32 = 32;

/// The identifier of the function that counts the "yes" ballots.
pub const ZK_COMPUTE: u32 = 0x61;

/// What a call returns when it hands requests to the engine, as a
/// mathematical value.
pub open spec fn step_view(
    step: Result<(ContractState, Vec<EngineRequest>), VotingError>,
) -> Result<(ContractState, Seq<EngineRequestView>), VotingError> {
    match step {
        Ok((state, requests)) => Ok((state, request_views(requests@))),
        Err(error) => Err(error),
    }
}

/// The state of a ballot that `sender` creates at time `now` and that
/// collects ballots for `voting_duration_ms` milliseconds.
pub open spec fn initialize_spec(context: CallContext, voting_duration_ms: u32) -> ContractState {
    ContractState {
        owner: context.sender,
        deadline: (context.now + voting_duration_ms) as i64,
        result: None,
    }
}

/// What the engine is told about a secret ballot of `voter`: an unsealed
/// input of 32 bits, attributed to the voter.
pub open spec fn vote_input(voter: Address) -> InputDef {
    InputDef {
        owner: voter,
        role: Role::Vote,
        bit_width: BITLENGTH_OF_SECRET_VOTE_VARIABLES,
        sealed: false,
    }
}

/// What `add_vote` returns.
pub open spec fn add_vote_spec(
    context: CallContext,
    state: ContractState,
    engine: EngineStateView,
) -> Result<(ContractState, InputDef), VotingError> {
    if !state.collection_open(context.now) {
        Err(VotingError::DeadlinePassed { deadline: state.deadline, now: context.now })
    } else if engine.has_vote_from(context.sender) {
        Err(VotingError::DuplicateVoter { voter: context.sender })
    } else {
        Ok((state, vote_input(context.sender)))
    }
}

/// The request that starts the count: one output variable, the tally.
pub open spec fn start_request() -> EngineRequestView {
    EngineRequestView::StartComputation {
        function_id: ZK_COMPUTE,
        output_roles: seq![Role::TalliedYesCount],
    }
}

/// What `start_vote_counting` returns.
pub open spec fn start_vote_counting_spec(
    context: CallContext,
    state: ContractState,
    engine: EngineStateView,
) -> Result<(ContractState, Seq<EngineRequestView>), VotingError> {
    if state.collection_open(context.now) {
        Err(VotingError::TooEarly { deadline: state.deadline, now: context.now })
    } else if engine.status != EngineStatus::Waiting {
        Err(VotingError::WrongEngineStatus { status: engine.status })
    } else {
        Ok((state, seq![start_request()]))
    }
}

/// What `counting_complete` returns.
pub open spec fn counting_complete_spec(
    state: ContractState,
    output_variables: Seq<SecretVarId>,
) -> (ContractState, Seq<EngineRequestView>) {
    (state, seq![EngineRequestView::OpenVariables { variables: output_variables }])
}

/// The result of a ballot with `votes` ballots of which `yes` are in
/// favour: every ballot that is not a "yes" counts as a "no", and the ballot
/// passes only if the "yes" are a strict majority.
pub open spec fn tally_result(votes: nat, yes: int) -> VoteResult {
    VoteResult {
        votes_for: yes as u32,
        votes_against: (votes - yes) as u32,
        passed: votes - yes < yes,
    }
}

/// What `open_sum_variable` returns.
pub open spec fn open_sum_variable_spec(
    state: ContractState,
    engine: EngineStateView,
    opened_variables: Seq<SecretVarId>,
) -> Result<(ContractState, Seq<EngineRequestView>), VotingError> {
    if opened_variables.len() != 1 {
        Err(VotingError::UnexpectedOutputCount { count: opened_variables.len() as usize })
    } else {
        let yes = engine.opened_u32(opened_variables[0]).unwrap();
        Ok(
            (
                ContractState {
                    owner: state.owner,
                    deadline: state.deadline,
                    result: Some(tally_result(engine.vote_count(), yes)),
                },
                seq![EngineRequestView::ContractDone],
            ),
        )
    }
}

/// Creates a ballot owned by the caller. Voting is open from now until
/// `voting_duration_ms` milliseconds have passed.
pub fn initialize(context: CallContext, _engine: &EngineState, voting_duration_ms: u32) -> (state:
    ContractState)
    requires
        context.now + voting_duration_ms <= i64::MAX,
    ensures
        state == initialize_spec(context, voting_duration_ms),
        state.deadline == context.now + voting_duration_ms,
{
    let deadline: i64 = context.now + (voting_duration_ms as i64);
    ContractState { owner: context.sender, deadline, result: None }
}

/// Accepts the caller's secret ballot.
///
/// The ballot is refused once the deadline has come, and otherwise if the
/// caller already has a ballot among the committed variables or the pending
/// inputs. On success the state is unchanged and the engine is told to accept
/// an unsealed 32-bit input for the caller.
pub fn add_vote(context: CallContext, state: ContractState, engine: &EngineState) -> (outcome:
    Result<(ContractState, InputDef), VotingError>)
    ensures
        outcome == add_vote_spec(context, state, engine@),
        outcome is Ok <==> context.now < state.deadline && !engine@.has_vote_from(
            context.sender,
        ),
{
    if !state.is_collection_open(context.now) {
        return Err(VotingError::DeadlinePassed { deadline: state.deadline, now: context.now });
    }
    if engine.has_vote_from(&context.sender) {
        return Err(VotingError::DuplicateVoter { voter: context.sender });
    }
    let input = InputDef {
        owner: context.sender,
        role: Role::Vote,
        bit_width: BITLENGTH_OF_SECRET_VOTE_VARIABLES,
        sealed: false,
    };
    Ok((state, input))
}

/// Starts the count of the committed ballots. Anybody may call this once
/// the deadline has come and while the engine is idle. Pending inputs are
/// ignored: only what is committed at this moment is counted.
pub fn start_vote_counting(context: CallContext, state: ContractState, engine: &EngineState) -> (step:
    Result<(ContractState, Vec<EngineRequest>), VotingError>)
    ensures
        step_view(step) == start_vote_counting_spec(context, state, engine@),
        step is Ok <==> context.now >= state.deadline && engine.status == EngineStatus::Waiting,
        step matches Ok((_, requests)) ==> status_after(engine.status, requests@[0]@)
            == EngineStatus::Running,
{
    if state.is_collection_open(context.now) {
        return Err(VotingError::TooEarly { deadline: state.deadline, now: context.now });
    }
    if engine.status != EngineStatus::Waiting {
        return Err(VotingError::WrongEngineStatus { status: engine.status });
    }
    let output_roles = vec![Role::TalliedYesCount];
    assert(output_roles@ =~= seq![Role::TalliedYesCount]);
    let requests = vec![EngineRequest::StartComputation { function_id: ZK_COMPUTE, output_roles }];
    assert(request_views(requests@) =~= seq![start_request()]);
    Ok((state, requests))
}

/// Reacts to the end of the count: asks the engine to open every output
/// variable that it reports. Nothing is checked and the state is unchanged.
pub fn counting_complete(
    _context: CallContext,
    state: ContractState,
    _engine: &EngineState,
    output_variables: Vec<SecretVarId>,
) -> (step: (ContractState, Vec<EngineRequest>))
    ensures
        (step.0, request_views(step.1@)) == counting_complete_spec(state, output_variables@),
        status_after(EngineStatus::Running, step.1@[0]@) == EngineStatus::Declassifying,
{
    let ghost opened = output_variables@;
    let requests = vec![EngineRequest::OpenVariables { variables: output_variables }];
    assert(request_views(requests@) =~= seq![
        EngineRequestView::OpenVariables { variables: opened },
    ]);
    (state, requests)
}

/// Reacts to the opening of the tally: reads the number of "yes" ballots,
/// takes every other committed ballot as a "no", and freezes the result.
///
/// The engine must have reported exactly one variable; any other number is
/// refused.
pub fn open_sum_variable(
    _context: CallContext,
    state: ContractState,
    engine: &EngineState,
    opened_variables: Vec<SecretVarId>,
) -> (step: Result<(ContractState, Vec<EngineRequest>), VotingError>)
    requires
        opened_variables@.len() == 1 ==> engine@.tally_is_sound(opened_variables@[0]),
    ensures
        step_view(step) == open_sum_variable_spec(state, engine@, opened_variables@),
        step is Ok <==> opened_variables@.len() == 1,
        step matches Ok((_, requests)) ==> status_after(
            EngineStatus::Declassifying,
            requests@[0]@,
        ) == EngineStatus::Done,
{
    if opened_variables.len() != 1 {
        return Err(VotingError::UnexpectedOutputCount { count: opened_variables.len() });
    }
    let votes_for: u32 = read_variable_u32_le(engine, opened_variables[0]);
    let total_votes: usize = engine.vote_count();
    let votes_against: u32 = (total_votes as u32) - votes_for;

    let vote_result = determine_result(votes_for, votes_against);
    let mut state = state;
    state.result = Some(vote_result);

    let requests = vec![EngineRequest::ContractDone];
    assert(request_views(requests@) =~= seq![EngineRequestView::ContractDone]);
    Ok((state, requests))
}

/// The result counts every committed ballot once: with `votes` committed
/// ballots of which the opened tally reports `yes` in favour, the frozen
/// result has `yes` votes for and `votes - yes` against, and it passes
/// exactly if those against are fewer than those for.
pub proof fn lemma_opened_tally_gives_result(
    state: ContractState,
    engine: EngineStateView,
    id: SecretVarId,
    votes: nat,
    yes: nat,
)
    requires
        engine.vote_count() == votes,
        engine.opened_u32(id) == Some(yes as int),
        yes <= votes <= u32::MAX,
    ensures
        engine.tally_is_sound(id),
        open_sum_variable_spec(state, engine, seq![id]) matches Ok((next, requests)) && {
            &&& requests == seq![EngineRequestView::ContractDone]
            &&& next.owner == state.owner
            &&& next.deadline == state.deadline
            &&& next.result matches Some(result)
            &&& result.votes_for == yes
            &&& result.votes_against == votes - yes
            &&& result.passed == (votes - yes < yes)
            &&& result.votes_for + result.votes_against == votes
            &&& result.is_consistent()
        },
{
}

/// A tie does not pass: with an even number of committed ballots of which
/// exactly half are in favour, the frozen result has `passed` false.
pub proof fn lemma_tie_does_not_pass(
    state: ContractState,
    engine: EngineStateView,
    id: SecretVarId,
    yes: nat,
)
    requires
        engine.vote_count() == 2 * yes,
        engine.opened_u32(id) == Some(yes as int),
        2 * yes <= u32::MAX,
    ensures
        open_sum_variable_spec(state, engine, seq![id]) matches Ok((next, _))
            && next.result matches Some(result) && !result.passed && result.votes_for
            == result.votes_against,
{
}

} // verus!
