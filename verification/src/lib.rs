//! Control logic of a secret ballot: votes are accepted in secret-shared form
//! while a voting window is open, a secure-computation engine tallies them,
//! and only the opened tally is turned into a pass/fail result.

pub mod address;
pub mod contract;
pub mod engine;
pub mod error;
pub mod protocol;
pub mod result;
pub mod state;
pub mod tally;
pub mod zk_compute;
