//! Possessions: which owner holds which item.

pub mod routes;
