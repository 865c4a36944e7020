use secret_voting::address::{Address, AddressType};
use secret_voting::contract::{add_vote, initialize, BITLENGTH_OF_SECRET_VOTE_VARIABLES};
use secret_voting::engine::{
    EngineState, EngineStatus, InputDef, Role, SecretVarId, SecretVariable,
};
use secret_voting::error::VotingError;
use secret_voting::result::VoteResult;
use secret_voting::state::{CallContext, ContractState};

fn voter(n: u8) -> Address {
    Address { address_type: AddressType::Account, identifier: [n; 20] }
}

fn engine_with(committed: Vec<SecretVariable>, pending: Vec<SecretVariable>) -> EngineState {
    EngineState { status: EngineStatus::Waiting, committed, pending }
}

fn ballot_of(id: u32, owner: Address) -> SecretVariable {
    SecretVariable { id: SecretVarId { raw_id: id }, owner, role: Role::Vote, value: None }
}

fn ballot_until(deadline: i64) -> ContractState {
    ContractState { owner: voter(0), deadline, result: None }
}

#[test]
fn initialize_sets_the_deadline_to_now_plus_duration() {
    let engine = engine_with(vec![], vec![]);
    let state = initialize(CallContext { sender: voter(3), now: 5 }, &engine, 7);
    assert_eq!(state, ContractState { owner: voter(3), deadline: 12, result: None });

    let state = initialize(CallContext { sender: voter(3), now: 1_700_000_000_000 }, &engine, 0);
    assert_eq!(state.deadline, 1_700_000_000_000);

    let state = initialize(CallContext { sender: voter(3), now: -1000 }, &engine, 400);
    assert_eq!(state.deadline, -600);
}

#[test]
fn initialize_reaches_the_last_representable_deadline() {
    let engine = engine_with(vec![], vec![]);
    let now = i64::MAX - (u32::MAX as i64);
    let state = initialize(CallContext { sender: voter(1), now }, &engine, u32::MAX);
    assert_eq!(state.deadline, i64::MAX);
}

#[test]
fn the_window_is_open_strictly_before_the_deadline() {
    let state = ballot_until(1000);
    assert!(state.is_collection_open(i64::MIN));
    assert!(state.is_collection_open(999));
    assert!(!state.is_collection_open(1000));
    assert!(!state.is_collection_open(1001));
    assert!(!state.is_collection_open(i64::MAX));
}

#[test]
fn a_first_ballot_before_the_deadline_is_accepted() {
    let state = ballot_until(1000);
    let engine = engine_with(vec![ballot_of(1, voter(1))], vec![ballot_of(2, voter(2))]);
    let accepted = add_vote(CallContext { sender: voter(3), now: 999 }, state, &engine);
    assert_eq!(
        accepted,
        Ok((
            state,
            InputDef { owner: voter(3), role: Role::Vote, bit_width: 32, sealed: false }
        ))
    );
    assert_eq!(BITLENGTH_OF_SECRET_VOTE_VARIABLES, 32);
}

#[test]
fn a_ballot_at_or_after_the_deadline_is_refused() {
    let state = ballot_until(1000);
    let engine = engine_with(vec![], vec![]);
    assert_eq!(
        add_vote(CallContext { sender: voter(1), now: 1000 }, state, &engine),
        Err(VotingError::DeadlinePassed { deadline: 1000, now: 1000 })
    );
    assert_eq!(
        add_vote(CallContext { sender: voter(1), now: 123_456 }, state, &engine),
        Err(VotingError::DeadlinePassed { deadline: 1000, now: 123_456 })
    );
}

#[test]
fn the_deadline_is_checked_before_the_voter() {
    // a voter who already has a ballot is told about the deadline first
    let state = ballot_until(1000);
    let engine = engine_with(vec![ballot_of(1, voter(1))], vec![]);
    assert_eq!(
        add_vote(CallContext { sender: voter(1), now: 1000 }, state, &engine),
        Err(VotingError::DeadlinePassed { deadline: 1000, now: 1000 })
    );
    // and the deadline holds whatever the engine is doing or the result is
    let done = EngineState { status: EngineStatus::Done, ..engine };
    let frozen = ContractState {
        result: Some(VoteResult { votes_for: 1, votes_against: 0, passed: true }),
        ..state
    };
    assert_eq!(
        add_vote(CallContext { sender: voter(2), now: 2000 }, frozen, &done),
        Err(VotingError::DeadlinePassed { deadline: 1000, now: 2000 })
    );
}

#[test]
fn a_voter_with_a_committed_ballot_is_refused() {
    let state = ballot_until(1000);
    let engine = engine_with(vec![ballot_of(1, voter(1)), ballot_of(2, voter(2))], vec![]);
    assert_eq!(
        add_vote(CallContext { sender: voter(2), now: 0 }, state, &engine),
        Err(VotingError::DuplicateVoter { voter: voter(2) })
    );
}

#[test]
fn a_voter_with_a_pending_ballot_is_refused() {
    let state = ballot_until(1000);
    let engine = engine_with(vec![ballot_of(1, voter(1))], vec![ballot_of(2, voter(2))]);
    assert_eq!(
        add_vote(CallContext { sender: voter(2), now: 0 }, state, &engine),
        Err(VotingError::DuplicateVoter { voter: voter(2) })
    );
    assert!(engine.has_vote_from(&voter(1)));
    assert!(engine.has_vote_from(&voter(2)));
    assert!(!engine.has_vote_from(&voter(3)));
}

#[test]
fn only_ballots_count_as_a_prior_vote() {
    // the owner of the tally has no ballot and may still vote
    let state = ballot_until(1000);
    let tally = SecretVariable {
        id: SecretVarId { raw_id: 9 },
        owner: voter(5),
        role: Role::TalliedYesCount,
        value: None,
    };
    let engine = engine_with(vec![tally], vec![]);
    assert!(!engine.has_vote_from(&voter(5)));
    assert!(add_vote(CallContext { sender: voter(5), now: 10 }, state, &engine).is_ok());
}

#[test]
fn identities_differ_by_kind_and_by_every_byte() {
    let state = ballot_until(1000);
    let mut other = voter(1);
    other.identifier[19] = 2;
    let contract = Address { address_type: AddressType::PublicContract, ..voter(1) };
    let engine = engine_with(vec![ballot_of(1, voter(1))], vec![]);
    assert!(voter(1) == voter(1));
    assert!(voter(1) != other);
    assert!(voter(1) != contract);
    assert!(add_vote(CallContext { sender: other, now: 10 }, state, &engine).is_ok());
    assert!(add_vote(CallContext { sender: contract, now: 10 }, state, &engine).is_ok());
    assert!(add_vote(CallContext { sender: voter(1), now: 10 }, state, &engine).is_err());
}
