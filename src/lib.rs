//! Escrowed multi-redemption payment links: fee arithmetic, distribution
//! strategies, and the lifecycle of a link, as verified state transitions.

pub mod address;
pub mod distribution;
pub mod error;
pub mod fees;
pub mod instruction;
pub mod laws;
pub mod processor;
pub mod state;
pub mod utils;
