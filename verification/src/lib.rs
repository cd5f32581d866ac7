//! Stake-weighted reward ledger with a governance subsystem whose voting
//! power follows the ledger: reward accounting, the two-phase allocation
//! protocol, subscriber fan-out, the poll registry and the tally engine.
pub mod chain;
pub mod encoding;
pub mod errors;
pub mod hashing;
pub mod keyed;
pub mod ledger;
pub mod lp_staking;
pub mod lp_staking_msg;
pub mod master_msg;
pub mod poll_factory;
pub mod rewards;
pub mod secret_poll;
pub mod secret_vote_types;
pub mod snip20;
pub mod types;
pub mod viewing_key;
