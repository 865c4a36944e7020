//! Reading the opened tally.

use vstd::prelude::*;
use crate::engine::{EngineState, EngineStateView, SecretVarId};

verus! {

/// The number that four bytes spell, least significant byte first.
pub open spec fn le_u32(bytes: Seq<u8>) -> int
    recommends
        bytes.len() == 4,
{
    bytes[0] + 256 * bytes[1] + 65536 * bytes[2] + 16777216 * bytes[3]
}

impl EngineStateView {
    /// The number held by the committed variable `id`, if that variable has
    /// been opened and its plaintext is exactly four bytes.
    pub open spec fn opened_u32(self, id: SecretVarId) -> Option<int> {
        match self.variable(id) {
            Some(variable) => match variable.value {
                Some(bytes) => if bytes.len() == 4 {
                    Some(le_u32(bytes))
                } else {
                    None
                },
                None => None,
            },
            None => None,
        }
    }

    /// Whether the variable `id` can serve as the tally of this ballot: it
    /// is opened as a four-byte number that does not exceed the number of
    /// committed ballots, which in turn fits the counters of a result.
    pub open spec fn tally_is_sound(self, id: SecretVarId) -> bool {
        &&& self.opened_u32(id) matches Some(yes)
        &&& yes <= self.vote_count() <= u32::MAX
    }
}

/// Reads four bytes as an unsigned number, least significant byte first.
fn decode_le_u32(bytes: &Vec<u8>) -> (value: u32)
    requires
        bytes@.len() == 4,
    ensures
        value == le_u32(bytes@),
{
    let b0: u32 = bytes[0] as u32;
    let b1: u32 = bytes[1] as u32;
    let b2: u32 = bytes[2] as u32;
    let b3: u32 = bytes[3] as u32;
    b0 + 256 * b1 + 65536 * b2 + 16777216 * b3
}

impl EngineState {
    /// Reads the committed variable `id` as a number, if it has been opened
    /// and its plaintext is exactly four bytes.
    pub fn opened_u32(&self, id: SecretVarId) -> (value: Option<u32>)
        ensures
            match value {
                Some(number) => self@.opened_u32(id) == Some(number as int),
                None => self@.opened_u32(id) is None,
            },
    {
        match self.get_variable(id) {
            Some(variable) => match &variable.value {
                Some(bytes) => if bytes.len() == 4 {
                    Some(decode_le_u32(bytes))
                } else {
                    None
                },
                None => None,
            },
            None => None,
        }
    }

    /// Tells whether the variable `id` can serve as the tally of this
    /// ballot.
    pub fn tally_is_sound(&self, id: SecretVarId) -> (sound: bool)
        ensures
            sound == self@.tally_is_sound(id),
    {
        match self.opened_u32(id) {
            Some(yes) => {
                let votes: usize = self.vote_count();
                yes as u64 <= votes as u64 && votes as u64 <= u32::MAX as u64
            },
            None => false,
        }
    }
}

/// Reads the opened variable `sum_variable_id` as an unsigned 32-bit number
/// in little-endian byte order.
pub fn read_variable_u32_le(engine: &EngineState, sum_variable_id: SecretVarId) -> (value: u32)
    requires
        engine@.opened_u32(sum_variable_id) is Some,
    ensures
        engine@.opened_u32(sum_variable_id) == Some(value as int),
{
    engine.opened_u32(sum_variable_id).unwrap()
}

} // verus!
