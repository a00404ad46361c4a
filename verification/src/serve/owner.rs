//! Owners: the identities that hold items.

pub mod routes;
