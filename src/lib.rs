//! Escrowed marketplace for non-fungible assets: a listing state machine with a
//! sorted bid book and fee-splitting settlement, all proved with Verus.

pub mod amount;
pub mod party;
pub mod book;
pub mod error;
pub mod events;
pub mod config;
pub mod settlement;
pub mod listing;
pub mod market;
pub mod laws;
pub mod deposit;
