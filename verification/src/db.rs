//! Plain images of the rows that the persistent store keeps.

pub mod database;
pub mod entities;
