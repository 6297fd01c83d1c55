//! A governance ledger: proposals with sequential ids, yes/no votes from
//! unique voters, and read access to the proposals' state.

pub mod contract;
pub mod error;
pub mod msg;
pub mod state;
