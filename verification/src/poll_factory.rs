//! The poll factory: creates polls, keeps the registry of the polls that
//! are still running and passes every change of voting power on to them.
pub mod challenge;
pub mod contract;
pub mod msg;
pub mod state;
