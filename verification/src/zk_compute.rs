//! The function that the engine is asked to run, stated on plain values.

use vstd::prelude::*;
use crate::engine::{EngineStateView, SecretVarId};

verus! {

/// The ballots in favour: those whose value is not zero.
pub open spec fn accepting_votes(ballots: Seq<i32>) -> Seq<i32> {
    ballots.filter(|ballot: i32| ballot != 0)
}

/// Counts the ballots in favour. A ballot is in favour exactly if its value
/// is not zero, so the count is never more than the number of ballots.
pub fn count_votes(ballots: &Vec<i32>) -> (votes_for: i32)
    requires
        ballots@.len() <= i32::MAX,
    ensures
        votes_for == accepting_votes(ballots@).len(),
        0 <= votes_for <= ballots@.len(),
{
    let mut votes_for: i32 = 0;
    let mut i: usize = 0;
    while i < ballots.len()
        invariant
            i <= ballots@.len() <= i32::MAX,
            votes_for == accepting_votes(ballots@.take(i as int)).len(),
            0 <= votes_for <= i,
        decreases ballots.len() - i,
    {
        proof {
            assert(ballots@.take(i + 1) =~= ballots@.take(i as int).push(ballots@[i as int]));
            ballots@.take(i as int).lemma_filter_len_push(
                |ballot: i32| ballot != 0,
                ballots@[i as int],
            );
        }
        if ballots[i] != 0 {
            votes_for = votes_for + 1;
        }
        i = i + 1;
    }
    assert(ballots@.take(i as int) =~= ballots@);
    votes_for
}

/// The count gives a tally that can be read: when the opened variable `id`
/// holds the number of ballots in favour among as many ballots as are
/// committed, it does not report more votes than were cast.
pub proof fn lemma_count_is_a_sound_tally(
    engine: EngineStateView,
    id: SecretVarId,
    ballots: Seq<i32>,
)
    requires
        ballots.len() == engine.vote_count(),
        ballots.len() <= u32::MAX,
        engine.opened_u32(id) == Some(accepting_votes(ballots).len() as int),
    ensures
        engine.tally_is_sound(id),
{
    ballots.lemma_filter_len(|ballot: i32| ballot != 0);
}

} // verus!
