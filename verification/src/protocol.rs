//! What holds of a ballot over more than one call.

use vstd::prelude::*;
use crate::address::Address;
use crate::contract::{
    add_vote_spec, counting_complete_spec, open_sum_variable_spec, start_request,
    start_vote_counting_spec, tally_result, vote_input,
};
use crate::engine::{
    holds_vote_of, status_after, EngineRequestView, EngineStateView, EngineStatus, InputDef, Role,
    SecretVarId, SecretVariableView,
};
use crate::error::VotingError;
use crate::state::{CallContext, ContractState};

verus! {

impl EngineStateView {
    /// Whether the engine holds `variable`, committed or pending.
    pub open spec fn holds(self, variable: SecretVariableView) -> bool {
        self.committed.contains(variable) || self.pending.contains(variable)
    }

    /// The engine's state once it has recorded `variable` as a pending input.
    pub open spec fn with_pending(self, variable: SecretVariableView) -> EngineStateView {
        EngineStateView {
            status: self.status,
            committed: self.committed,
            pending: self.pending.push(variable),
        }
    }

    /// The engine's state once it has committed its pending input at place
    /// `i`.
    pub open spec fn with_committed(self, i: int) -> EngineStateView
        recommends
            0 <= i < self.pending.len(),
    {
        EngineStateView {
            status: self.status,
            committed: self.committed.push(self.pending[i]),
            pending: self.pending.remove(i),
        }
    }

    /// No identity has more than one ballot among the committed variables
    /// and the pending inputs together.
    pub open spec fn one_vote_per_voter(self) -> bool {
        at_most_one_vote_each(self.committed + self.pending)
    }
}

/// No two ballots at different places of `vars` have the same owner.
pub open spec fn at_most_one_vote_each(vars: Seq<SecretVariableView>) -> bool {
    forall|i: int, j: int|
        #![trigger vars[i], vars[j]]
        0 <= i < vars.len() && 0 <= j < vars.len() && vars[i].role == Role::Vote && vars[j].role
            == Role::Vote && vars[i].owner == vars[j].owner ==> i == j
}

/// A voter votes once. The ballot of a voter who has none yet is accepted
/// before the deadline; when the engine holds the variable made from it,
/// every further ballot of that voter before the deadline is refused as a
/// duplicate.
pub proof fn lemma_voter_votes_once(
    state: ContractState,
    voter: Address,
    first: i64,
    engine: EngineStateView,
    id: SecretVarId,
    second: i64,
    later: EngineStateView,
)
    requires
        first < state.deadline,
        !engine.has_vote_from(voter),
        later.holds(vote_input(voter).variable(id)),
        second < state.deadline,
    ensures
        add_vote_spec(CallContext { sender: voter, now: first }, state, engine) == Ok::<
            _,
            VotingError,
        >((state, vote_input(voter))),
        add_vote_spec(CallContext { sender: voter, now: second }, state, later) == Err::<
            (ContractState, InputDef),
            _,
        >(VotingError::DuplicateVoter { voter }),
{
    let variable = vote_input(voter).variable(id);
    assert(variable.is_vote_of(voter));
    if later.committed.contains(variable) {
        let i = choose|i: int| 0 <= i < later.committed.len() && later.committed[i] == variable;
        assert(later.committed[i].is_vote_of(voter));
        assert(holds_vote_of(later.committed, voter));
    } else {
        let i = choose|i: int| 0 <= i < later.pending.len() && later.pending[i] == variable;
        assert(later.pending[i].is_vote_of(voter));
        assert(holds_vote_of(later.pending, voter));
    }
}

/// Before any input there is nothing to count twice: an engine that holds
/// no variable has no identity with more than one ballot.
pub proof fn lemma_no_variables_one_vote_per_voter(engine: EngineStateView)
    requires
        engine.committed.len() == 0,
        engine.pending.len() == 0,
    ensures
        engine.one_vote_per_voter(),
{
}

/// Acceptance keeps every voter at one ballot: where no identity has more
/// than one ballot, the engine's state with the variable of a newly accepted
/// ballot among its pending inputs is again such a state.
pub proof fn lemma_acceptance_keeps_one_vote_per_voter(
    context: CallContext,
    state: ContractState,
    engine: EngineStateView,
    id: SecretVarId,
)
    requires
        engine.one_vote_per_voter(),
        add_vote_spec(context, state, engine) is Ok,
    ensures
        engine.with_pending(vote_input(context.sender).variable(id)).one_vote_per_voter(),
{
    let variable = vote_input(context.sender).variable(id);
    let before = engine.committed + engine.pending;
    let after = engine.committed + engine.pending.push(variable);
    assert(after =~= before.push(variable));
    assert forall|k: int| 0 <= k < before.len() implies !(#[trigger] before[k]).is_vote_of(
        context.sender,
    ) by {
        if k < engine.committed.len() {
            assert(before[k] == engine.committed[k]);
        } else {
            assert(before[k] == engine.pending[k - engine.committed.len()]);
        }
    }
}

/// Committing keeps every voter at one ballot: where no identity has more
/// than one ballot, the engine's state with one of its pending inputs moved
/// to the committed variables is again such a state.
pub proof fn lemma_commit_keeps_one_vote_per_voter(engine: EngineStateView, i: int)
    requires
        engine.one_vote_per_voter(),
        0 <= i < engine.pending.len(),
    ensures
        engine.with_committed(i).one_vote_per_voter(),
{
    let before = engine.committed + engine.pending;
    let after = engine.committed.push(engine.pending[i]) + engine.pending.remove(i);
    let n = engine.committed.len() as int;
    // Where the variable at each place of `after` stood in `before`.
    let origin = |k: int|
        if k < n {
            k
        } else if k == n {
            n + i
        } else if k - n - 1 < i {
            k - 1
        } else {
            k
        };
    assert forall|a: int, b: int|
        #![trigger after[a], after[b]]
        0 <= a < after.len() && 0 <= b < after.len() && after[a].role == Role::Vote
            && after[b].role == Role::Vote && after[a].owner == after[b].owner implies a == b by {
        assert(before[origin(a)] == after[a]);
        assert(before[origin(b)] == after[b]);
        assert(origin(a) == origin(b));
    }
}

/// Counting starts once. At or after the deadline a call finds the engine
/// idle and starts the count; when the engine has taken up that request it
/// is running, and every further call at or after the deadline is refused.
pub proof fn lemma_counting_starts_once(
    state: ContractState,
    first: CallContext,
    engine: EngineStateView,
    second: CallContext,
    later: EngineStateView,
)
    requires
        first.now >= state.deadline,
        engine.status == EngineStatus::Waiting,
        later.status == status_after(engine.status, start_request()),
        second.now >= state.deadline,
    ensures
        start_vote_counting_spec(first, state, engine) == Ok::<_, VotingError>(
            (state, seq![start_request()]),
        ),
        later.status == EngineStatus::Running,
        start_vote_counting_spec(second, state, later) == Err::<
            (ContractState, Seq<EngineRequestView>),
            _,
        >(VotingError::WrongEngineStatus { status: EngineStatus::Running }),
{
}

/// The requests of the calls take the computation through its phases in
/// order, from idle to done, and nothing moves it once it is done.
pub proof fn lemma_phases_in_order(
    context: CallContext,
    state: ContractState,
    engine: EngineStateView,
    variables: Seq<SecretVarId>,
    request: EngineRequestView,
)
    ensures
        start_vote_counting_spec(context, state, engine) matches Ok((_, requests))
            ==> status_after(engine.status, requests[0]) == EngineStatus::Running,
        status_after(EngineStatus::Running, counting_complete_spec(state, variables).1[0])
            == EngineStatus::Declassifying,
        open_sum_variable_spec(state, engine, variables) matches Ok((_, requests))
            ==> status_after(EngineStatus::Declassifying, requests[0]) == EngineStatus::Done,
        status_after(EngineStatus::Done, request) == EngineStatus::Done,
{
}

/// Owner and deadline are fixed when the ballot is created, and the result
/// is written by the opening of the tally alone: every other call that
/// succeeds hands the state back as it was.
pub proof fn lemma_state_changes_only_when_tally_opens(
    context: CallContext,
    state: ContractState,
    engine: EngineStateView,
    variables: Seq<SecretVarId>,
)
    ensures
        add_vote_spec(context, state, engine) matches Ok((next, _)) ==> next == state,
        start_vote_counting_spec(context, state, engine) matches Ok((next, _)) ==> next == state,
        counting_complete_spec(state, variables).0 == state,
        open_sum_variable_spec(state, engine, variables) matches Ok((next, _)) ==> {
            &&& next.owner == state.owner
            &&& next.deadline == state.deadline
            &&& next.result == Some(
                tally_result(engine.vote_count(), engine.opened_u32(variables[0]).unwrap()),
            )
        },
{
}

} // verus!
