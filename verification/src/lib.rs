//! A chess rules engine: board representation, move legality, special moves
//! and game status, with every rule stated as a contract.

pub mod board;
pub mod laws;
pub mod legality;
pub mod rules;
pub mod state;
pub mod types;
