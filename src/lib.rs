//! A counter kept in one account of a host ledger: instruction decoding,
//! account checks and the state transitions, with their contracts.
pub mod error;
pub mod instruction;
pub mod processor;
pub mod state;
