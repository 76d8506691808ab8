//! A single-organization governance ledger: an organization record, its
//! proposals and one ballot per (proposal, voter), with every transition
//! checked for authorization, state and voting window before it commits.

pub mod identity;
pub mod state;
pub mod tally;
pub mod ledger;
pub mod address;
mod clock;
pub mod instructions;
pub mod laws;
