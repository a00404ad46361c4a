//! Trades: one negotiation, the registry of open ones, and their execution.

pub mod error;
pub mod executor;
pub mod laws;
pub mod logic;
pub mod registry;
pub mod routes;
pub mod validation;
