//! The outcome of a ballot.

use vstd::prelude::*;

verus! {

/// The frozen outcome of a ballot.
#[derive(Clone, Copy, Debug, PartialEq, Eq, Structural)]
pub struct VoteResult {
    /// Number of votes in favour.
    pub votes_for: u32,
    /// Number of votes not in favour.
    pub votes_against: u32,
    /// Whether the votes in favour are a strict majority.
    pub passed: bool,
}

impl VoteResult {
    /// The outcome that strict majority gives for the two counts.
    pub open spec fn of_counts(votes_for: u32, votes_against: u32) -> VoteResult {
        VoteResult { votes_for, votes_against, passed: votes_against < votes_for }
    }

    /// `passed` says exactly that the votes in favour outnumber the others.
    pub open spec fn is_consistent(self) -> bool {
        self.passed == (self.votes_against < self.votes_for)
    }
}

/// Decides a ballot by strict majority: it passes only if more votes are in
/// favour than against, so a tie does not pass.
pub fn determine_result(votes_for: u32, votes_against: u32) -> (result: VoteResult)
    ensures
        result == VoteResult::of_counts(votes_for, votes_against),
        result.is_consistent(),
{
    let passed = votes_against < votes_for;
    VoteResult { votes_for, votes_against, passed }
}

} // verus!
