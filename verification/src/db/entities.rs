//! One module per table, each with the `Model` of one row.

pub mod item;
pub mod owner;
pub mod possession;
