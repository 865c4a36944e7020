//! Why a call is refused.

use vstd::prelude::*;
use crate::address::Address;
use crate::engine::EngineStatus;

verus! {

/// A violated precondition of a call. A refused call changes nothing: the
/// caller discards whatever it was about to commit.
#[derive(Clone, Copy, Debug, PartialEq, Eq)]
pub enum VotingError {
    /// A ballot arrived at or after the deadline.
    DeadlinePassed { deadline: i64, now: i64 },
    /// Counting was asked for before the deadline.
    TooEarly { deadline: i64, now: i64 },
    /// The voter already has a ballot, committed or pending.
    DuplicateVoter { voter: Address },
    /// Counting was asked for while the engine was not idle.
    WrongEngineStatus { status: EngineStatus },
    /// The engine reported other than exactly one opened variable.
    UnexpectedOutputCount { count: usize },
}

} // verus!
