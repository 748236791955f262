//! Escrow engine for capacity-limited wagering rounds.
//!
//! A pool, run by a fixed authority, hosts rounds ("games"). Every round has
//! a fixed entry bid and a number of seats. A participant takes a seat by
//! paying the bid, which is split between the round's fee receiver and the
//! round's vault. The round closes when its last seat is taken.

pub mod accounts;
pub mod address;
pub mod error;
pub mod processor;
pub mod seeds;
pub mod split;
pub mod state;
pub mod transfer;

pub use crate::processor::create_game;
pub use crate::processor::deposit;
pub use crate::processor::initialize;
