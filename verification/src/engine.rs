//! The secure-computation engine as the ballot sees it: the secret variables
//! it holds, the phase of its computation, and the requests it accepts.

use vstd::prelude::*;
use crate::address::Address;

verus! {

/// The identifier that the engine gives a secret variable.
#[derive(Clone, Copy, Debug, PartialEq, Eq, Structural)]
pub struct SecretVarId {
    pub raw_id: u32,
}

/// What a secret variable stands for.
#[derive(Clone, Copy, Debug, PartialEq, Eq, Structural)]
pub enum Role {
    /// A voter's secret ballot.
    Vote,
    /// The number of "yes" ballots that the engine computed.
    TalliedYesCount,
}

/// A secret variable held by the engine.
#[derive(Clone, Debug, PartialEq, Eq)]
pub struct SecretVariable {
    pub id: SecretVarId,
    /// Who submitted the variable.
    pub owner: Address,
    pub role: Role,
    /// The plaintext, once the variable has been opened; `None` before.
    pub value: Option<Vec<u8>>,
}

/// A secret variable as a mathematical value.
pub struct SecretVariableView {
    pub id: SecretVarId,
    pub owner: Address,
    pub role: Role,
    pub value: Option<Seq<u8>>,
}

impl View for SecretVariable {
    type V = SecretVariableView;

    open spec fn view(&self) -> SecretVariableView {
        SecretVariableView {
            id: self.id,
            owner: self.owner,
            role: self.role,
            value: match self.value {
                Some(bytes) => Some(bytes@),
                None => None,
            },
        }
    }
}

impl SecretVariableView {
    /// Whether this is a ballot submitted by `voter`.
    pub open spec fn is_vote_of(self, voter: Address) -> bool {
        self.role == Role::Vote && self.owner == voter
    }
}

/// The phase of the engine's one computation.
#[derive(Clone, Copy, Debug, PartialEq, Eq, Structural)]
pub enum EngineStatus {
    /// Idle: no computation is in flight and none has completed.
    Waiting,
    /// The tally is being computed.
    Running,
    /// The tally is being opened.
    Declassifying,
    /// The result is frozen; nothing more will happen.
    Done,
}

/// What the engine shows the ballot at the time of a call.
#[derive(Clone, Debug, PartialEq, Eq)]
pub struct EngineState {
    pub status: EngineStatus,
    /// The variables that are part of the engine's state.
    pub committed: Vec<SecretVariable>,
    /// The inputs that were submitted but are not committed yet.
    pub pending: Vec<SecretVariable>,
}

/// The variables of a collection as mathematical values, in their order.
pub open spec fn variable_views(vars: Seq<SecretVariable>) -> Seq<SecretVariableView> {
    vars.map_values(|v: SecretVariable| v@)
}

/// The engine's state as a mathematical value.
pub struct EngineStateView {
    pub status: EngineStatus,
    pub committed: Seq<SecretVariableView>,
    pub pending: Seq<SecretVariableView>,
}

impl View for EngineState {
    type V = EngineStateView;

    open spec fn view(&self) -> EngineStateView {
        EngineStateView {
            status: self.status,
            committed: variable_views(self.committed@),
            pending: variable_views(self.pending@),
        }
    }
}

/// What the engine is told about a secret input that it is to accept.
#[derive(Clone, Copy, Debug, PartialEq, Eq)]
pub struct InputDef {
    /// The identity that the new variable is attributed to.
    pub owner: Address,
    pub role: Role,
    /// The number of bits of the secret value.
    pub bit_width: u32,
    /// Whether the value is committed as a hash and revealed later, instead
    /// of being kept secret-shared.
    pub sealed: bool,
}

impl InputDef {
    /// The variable that the engine creates for this input when it gives it
    /// the identifier `id`.
    pub open spec fn variable(self, id: SecretVarId) -> SecretVariableView {
        SecretVariableView { id, owner: self.owner, role: self.role, value: None }
    }
}

/// A request that a call hands back for the engine to carry out.
#[derive(Clone, Debug, PartialEq, Eq)]
pub enum EngineRequest {
    /// Run the function `function_id` over the committed variables; it
    /// produces one output variable for each role in `output_roles`.
    StartComputation { function_id: u32, output_roles: Vec<Role> },
    /// Open the listed variables, so that their values become readable.
    OpenVariables { variables: Vec<SecretVarId> },
    /// The ballot is finished; the engine may reclaim its resources.
    ContractDone,
}

/// A request as a mathematical value.
pub enum EngineRequestView {
    StartComputation { function_id: u32, output_roles: Seq<Role> },
    OpenVariables { variables: Seq<SecretVarId> },
    ContractDone,
}

impl View for EngineRequest {
    type V = EngineRequestView;

    open spec fn view(&self) -> EngineRequestView {
        match *self {
            EngineRequest::StartComputation { function_id, output_roles } => {
                EngineRequestView::StartComputation { function_id, output_roles: output_roles@ }
            },
            EngineRequest::OpenVariables { variables } => {
                EngineRequestView::OpenVariables { variables: variables@ }
            },
            EngineRequest::ContractDone => EngineRequestView::ContractDone,
        }
    }
}

/// The requests of a list as mathematical values, in their order.
pub open spec fn request_views(requests: Seq<EngineRequest>) -> Seq<EngineRequestView> {
    requests.map_values(|r: EngineRequest| r@)
}

/// The phase of the computation once the engine has taken up `request` in
/// the phase `status`. A request moves the computation one phase on when it
/// is the one that the phase waits for, and not at all otherwise.
pub open spec fn status_after(status: EngineStatus, request: EngineRequestView) -> EngineStatus {
    match (status, request) {
        (EngineStatus::Waiting, EngineRequestView::StartComputation { .. }) => EngineStatus::Running,
        (EngineStatus::Running, EngineRequestView::OpenVariables { .. }) => {
            EngineStatus::Declassifying
        },
        (EngineStatus::Declassifying, EngineRequestView::ContractDone) => EngineStatus::Done,
        _ => status,
    }
}

impl EngineStatus {
    /// The phase that follows this one when the engine takes up `request`.
    pub fn after(self, request: &EngineRequest) -> (next: EngineStatus)
        ensures
            next == status_after(self, request@),
    {
        match (self, request) {
            (EngineStatus::Waiting, EngineRequest::StartComputation { .. }) => EngineStatus::Running,
            (EngineStatus::Running, EngineRequest::OpenVariables { .. }) => {
                EngineStatus::Declassifying
            },
            (EngineStatus::Declassifying, EngineRequest::ContractDone) => EngineStatus::Done,
            _ => self,
        }
    }
}

/// Whether `i` is the place of the first variable in `vars` that carries `id`.
pub open spec fn is_first_with_id(vars: Seq<SecretVariableView>, id: SecretVarId, i: int) -> bool {
    &&& 0 <= i < vars.len()
    &&& vars[i].id == id
    &&& forall|j: int| 0 <= j < i ==> (#[trigger] vars[j]).id != id
}

/// The first variable in `vars` that carries `id`, if there is one.
pub open spec fn find_variable(vars: Seq<SecretVariableView>, id: SecretVarId) -> Option<
    SecretVariableView,
> {
    if exists|i: int| is_first_with_id(vars, id, i) {
        Some(vars[choose|i: int| is_first_with_id(vars, id, i)])
    } else {
        None
    }
}

/// The ballots among `vars`, in their order.
pub open spec fn votes_among(vars: Seq<SecretVariableView>) -> Seq<SecretVariableView> {
    vars.filter(|v: SecretVariableView| v.role == Role::Vote)
}

/// Whether one of `vars` is a ballot submitted by `voter`.
pub open spec fn holds_vote_of(vars: Seq<SecretVariableView>, voter: Address) -> bool {
    exists|i: int| 0 <= i < vars.len() && (#[trigger] vars[i]).is_vote_of(voter)
}

impl EngineStateView {
    /// Whether `voter` already has a ballot, committed or pending.
    pub open spec fn has_vote_from(self, voter: Address) -> bool {
        holds_vote_of(self.committed, voter) || holds_vote_of(self.pending, voter)
    }

    /// The number of committed ballots.
    pub open spec fn vote_count(self) -> nat {
        votes_among(self.committed).len()
    }

    /// The committed variable that carries `id`, if there is one.
    pub open spec fn variable(self, id: SecretVarId) -> Option<SecretVariableView> {
        find_variable(self.committed, id)
    }
}

/// The variable at place `i` is the one that a lookup of its identifier
/// gives, provided that no earlier variable carries that identifier.
pub proof fn lemma_find_variable_at(vars: Seq<SecretVariableView>, id: SecretVarId, i: int)
    requires
        is_first_with_id(vars, id, i),
    ensures
        find_variable(vars, id) == Some(vars[i]),
{
    let k = choose|k: int| is_first_with_id(vars, id, k);
    assert(is_first_with_id(vars, id, k));
    if k < i {
        assert(vars[k].id != id);
    } else if i < k {
        assert(vars[i].id != id);
    }
}

/// One more variable is one more ballot if it is a ballot, and none
/// otherwise.
pub proof fn lemma_votes_among_push(vars: Seq<SecretVariableView>, variable: SecretVariableView)
    ensures
        votes_among(vars.push(variable)).len() == votes_among(vars).len() + if variable.role
            == Role::Vote {
            1int
        } else {
            0int
        },
{
    vars.lemma_filter_len_push(|v: SecretVariableView| v.role == Role::Vote, variable);
}

/// Scans one collection for a ballot submitted by `voter`.
fn any_vote_of(vars: &Vec<SecretVariable>, voter: &Address) -> (found: bool)
    ensures
        found == holds_vote_of(variable_views(vars@), *voter),
{
    let ghost views = variable_views(vars@);
    let mut i: usize = 0;
    while i < vars.len()
        invariant
            i <= vars.len(),
            views == variable_views(vars@),
            forall|j: int| 0 <= j < i ==> !(#[trigger] views[j]).is_vote_of(*voter),
        decreases vars.len() - i,
    {
        assert(views[i as int] == vars[i as int]@);
        if vars[i].role == Role::Vote && vars[i].owner == *voter {
            return true;
        }
        i = i + 1;
    }
    false
}

impl EngineState {
    /// Tells whether `voter` already has a ballot among the committed
    /// variables or the pending inputs.
    pub fn has_vote_from(&self, voter: &Address) -> (found: bool)
        ensures
            found == self@.has_vote_from(*voter),
    {
        any_vote_of(&self.committed, voter) || any_vote_of(&self.pending, voter)
    }

    /// Counts the committed ballots.
    pub fn vote_count(&self) -> (count: usize)
        ensures
            count == self@.vote_count(),
    {
        let ghost views = self@.committed;
        let mut count: usize = 0;
        let mut i: usize = 0;
        while i < self.committed.len()
            invariant
                i <= self.committed.len(),
                views == self@.committed,
                count <= i,
                count == votes_among(views.take(i as int)).len(),
            decreases self.committed.len() - i,
        {
            proof {
                assert(views[i as int] == self.committed[i as int]@);
                assert(views.take(i + 1) =~= views.take(i as int).push(views[i as int]));
                lemma_votes_among_push(views.take(i as int), views[i as int]);
            }
            if self.committed[i].role == Role::Vote {
                count = count + 1;
            }
            i = i + 1;
        }
        assert(views.take(i as int) =~= views);
        count
    }

    /// Looks a committed variable up by its identifier.
    pub fn get_variable(&self, id: SecretVarId) -> (found: Option<&SecretVariable>)
        ensures
            match found {
                Some(variable) => self@.variable(id) == Some(variable@),
                None => self@.variable(id) is None,
            },
    {
        let ghost vars = self@.committed;
        let mut i: usize = 0;
        while i < self.committed.len()
            invariant
                i <= self.committed.len(),
                vars == self@.committed,
                forall|j: int| 0 <= j < i ==> (#[trigger] vars[j]).id != id,
            decreases self.committed.len() - i,
        {
            if self.committed[i].id == id {
                proof {
                    assert(vars[i as int] == self.committed[i as int]@);
                    lemma_find_variable_at(vars, id, i as int);
                }
                return Some(&self.committed[i]);
            }
            assert(vars[i as int] == self.committed[i as int]@);
            i = i + 1;
        }
        None
    }
}

} // verus!
