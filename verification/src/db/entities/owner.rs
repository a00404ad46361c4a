//! The `owner` table.

use vstd::prelude::*;

verus! {

/// One owner: an identity that can hold items.
#[derive(Clone, Copy, Debug, PartialEq, Eq, Structural)]
pub struct Model {
    pub id: i32,
}

} // verus!
