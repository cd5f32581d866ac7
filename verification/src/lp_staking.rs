//! The staking pool: deposits of the incentivized token earn a share of the
//! reward token that the master allocates to the pool.
pub mod admin;
pub mod answers;
pub mod constants;
pub mod contract;
pub mod invariants;
pub mod queries;
pub mod settlement;
pub mod state;
