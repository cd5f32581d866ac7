//! A poll: stake-weighted votes on a list of choices, tallied by choice and
//! kept in step with the staking pool while the poll is open.
pub mod contract;
pub mod invariants;
pub mod msg;
pub mod state;
pub mod tally;
