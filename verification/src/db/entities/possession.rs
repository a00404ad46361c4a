//! The `possession` table.

use vstd::prelude::*;

verus! {

/// One possession: an item instance bound to its current owner.
#[derive(Clone, Copy, Debug, PartialEq, Eq, Structural)]
pub struct Model {
    pub id: i32,
    pub owner: i32,
    pub item: i32,
}

} // verus!
