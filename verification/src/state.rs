//! The ballot's own state and the voting window.

use vstd::prelude::*;
use crate::address::Address;
use crate::result::VoteResult;

verus! {

/// What the host supplies with every call.
#[derive(Clone, Copy, Debug, PartialEq, Eq)]
pub struct CallContext {
    /// The identity that makes the call.
    pub sender: Address,
    /// The block production time, in milliseconds since the epoch.
    pub now: i64,
}

/// The state of one ballot.
#[derive(Clone, Copy, Debug, PartialEq, Eq)]
pub struct ContractState {
    /// The identity that created the ballot.
    pub owner: Address,
    /// When voting stops, in milliseconds since the epoch.
    pub deadline: i64,
    /// The outcome: `None` until the tally has been opened.
    pub result: Option<VoteResult>,
}

impl ContractState {
    /// Ballots are collected strictly before the deadline.
    pub open spec fn collection_open(self, now: i64) -> bool {
        now < self.deadline
    }

    /// Tells whether ballots are still collected at time `now`; from the
    /// deadline on the collection is closed.
    pub fn is_collection_open(&self, now: i64) -> (open: bool)
        ensures
            open == self.collection_open(now),
    {
        now < self.deadline
    }
}

} // verus!
