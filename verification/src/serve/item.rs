//! Items: the kinds of thing that can be owned.

pub mod routes;
