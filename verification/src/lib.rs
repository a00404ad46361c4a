//! Ventil: bilateral barter between owners of discrete items.
//!
//! The crate holds the negotiation engine of the service: the registry of
//! open trades, the state machine of one trade, and the executor that turns
//! an accepted trade into a swap of ownership. Every function is stated over
//! a mathematical model of its data and proved against it.

pub mod db;
pub mod serve;
pub mod text;
