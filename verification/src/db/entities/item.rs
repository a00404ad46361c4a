//! The `item` table.

use vstd::prelude::*;

verus! {

/// One kind of item, with its label.
#[derive(Clone, Debug, PartialEq, Eq)]
pub struct Model {
    pub id: i32,
    pub item_type: String,
}

/// The mathematical content of an item row: its id and the characters of
/// its label.
pub struct ItemView {
    pub id: i32,
    pub item_type: Seq<char>,
}

impl View for Model {
    type V = ItemView;

    open spec fn view(&self) -> ItemView {
        ItemView { id: self.id, item_type: self.item_type@ }
    }
}

} // verus!
