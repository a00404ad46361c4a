//! One negotiation between two owners, and the three moves open to them.

use crate::db::entities::owner::Model as OwnerModel;
use crate::db::entities::possession::Model as PossessionModel;
use vstd::prelude::*;

verus! {

pub type TradeId = u64;

/// A bilateral negotiation: two fixed sides, each with an offer list and an
/// accept flag.
#[derive(Debug)]
pub struct Trade {
    pub id: u64,
    pub trader_1: OwnerModel,
    pub trade_1_accept: bool,
    pub trade_1_items: Vec<i32>,
    pub trader_2: OwnerModel,
    pub trade_2_accept: bool,
    pub trade_2_items: Vec<i32>,
}

/// The mathematical content of a [`Trade`]: the owners by their ids, the
/// offer lists as sequences of possession ids.
pub struct TradeView {
    pub id: u64,
    pub trader_1: i32,
    pub trade_1_accept: bool,
    pub trade_1_items: Seq<i32>,
    pub trader_2: i32,
    pub trade_2_accept: bool,
    pub trade_2_items: Seq<i32>,
}

impl View for Trade {
    type V = TradeView;

    open spec fn view(&self) -> TradeView {
        TradeView {
            id: self.id,
            trader_1: self.trader_1.id,
            trade_1_accept: self.trade_1_accept,
            trade_1_items: self.trade_1_items@,
            trader_2: self.trader_2.id,
            trade_2_accept: self.trade_2_accept,
            trade_2_items: self.trade_2_items@,
        }
    }
}

impl TradeView {
    /// A trade that has just been opened: nothing offered, nothing accepted.
    pub open spec fn fresh(id: u64, trader_1: i32, trader_2: i32) -> TradeView {
        TradeView {
            id,
            trader_1,
            trade_1_accept: false,
            trade_1_items: Seq::empty(),
            trader_2,
            trade_2_accept: false,
            trade_2_items: Seq::empty(),
        }
    }

    /// The two sides are different owners.
    pub open spec fn well_formed(self) -> bool {
        self.trader_1 != self.trader_2
    }

    /// `owner` is one of the two sides.
    pub open spec fn involves(self, owner: i32) -> bool {
        self.trader_1 == owner || self.trader_2 == owner
    }

    /// Both sides have accepted the offers as they stand.
    pub open spec fn both_accepted(self) -> bool {
        self.trade_1_accept && self.trade_2_accept
    }

    /// The offer list of `owner`; the empty list for a stranger.
    pub open spec fn offers_of(self, owner: i32) -> Seq<i32> {
        if self.trader_1 == owner {
            self.trade_1_items
        } else if self.trader_2 == owner {
            self.trade_2_items
        } else {
            Seq::empty()
        }
    }

    /// The same trade with both accept flags down.
    pub open spec fn reopened(self) -> TradeView {
        TradeView { trade_1_accept: false, trade_2_accept: false, ..self }
    }

    /// `owner` may offer `item`: the owner is a side of the trade and holds
    /// the possession.
    pub open spec fn admits(self, owner: i32, item: PossessionModel) -> bool {
        self.involves(owner) && item.owner == owner
    }

    /// The trade after `owner` has offered the possession `item`.
    pub open spec fn with_offer(self, owner: i32, item: i32) -> TradeView {
        if self.trader_1 == owner {
            TradeView { trade_1_items: self.trade_1_items.push(item), ..self.reopened() }
        } else if self.trader_2 == owner {
            TradeView { trade_2_items: self.trade_2_items.push(item), ..self.reopened() }
        } else {
            self
        }
    }

    /// `owner` is a side of the trade and has `item` in its offer list.
    pub open spec fn offers(self, owner: i32, item: i32) -> bool {
        self.offers_of(owner).contains(item)
    }

    /// The trade after `owner` has withdrawn its first offer of `item`: that
    /// one offer leaves the list and the others keep their order. The trade
    /// itself where there is no such offer.
    pub open spec fn without_offer(self, owner: i32, item: i32) -> TradeView {
        if !self.offers(owner, item) {
            self
        } else if self.trader_1 == owner {
            TradeView { trade_1_items: self.trade_1_items.remove_value(item), ..self.reopened() }
        } else {
            TradeView { trade_2_items: self.trade_2_items.remove_value(item), ..self.reopened() }
        }
    }

    /// The trade after `owner` has flipped its own accept flag; the trade
    /// itself for a stranger.
    pub open spec fn toggled(self, owner: i32) -> TradeView {
        if self.trader_1 == owner {
            TradeView { trade_1_accept: !self.trade_1_accept, ..self }
        } else if self.trader_2 == owner {
            TradeView { trade_2_accept: !self.trade_2_accept, ..self }
        } else {
            self
        }
    }
}

/// The index of the first occurrence of `item` in `items`, if there is one.
pub fn first_position(items: &Vec<i32>, item: i32) -> (found: Option<usize>)
    ensures
        match found {
            Some(index) => items@.index_of_first(item) == Some(index as int),
            None => items@.index_of_first(item) is None,
        },
{
    let mut index: usize = 0;
    while index < items.len()
        invariant
            index <= items.len(),
            forall|j: int| 0 <= j < index ==> items@[j] != item,
        decreases items.len() - index,
    {
        if items[index] == item {
            proof {
                items@.index_of_first_ensures(item);
            }
            return Some(index);
        }
        index += 1;
    }
    proof {
        items@.index_of_first_ensures(item);
    }
    None
}

/// The moves of a negotiation.
pub trait TradeLogic {
    fn add_to_trade(&mut self, owner: &OwnerModel, item: &PossessionModel) -> bool;

    fn remove_from_trade(&mut self, owner: &OwnerModel, item: &PossessionModel) -> bool;

    fn change_trade_status(&mut self, owner: &OwnerModel) -> bool;
}

impl TradeLogic for Trade {
    /// Offers `item` on the side of `owner`. The offer is taken exactly when
    /// `owner` is a side of the trade and holds the possession; it then goes
    /// to the end of that side's list, a second time if it is already there,
    /// and both accept flags fall. A refused offer changes nothing.
    fn add_to_trade(&mut self, owner: &OwnerModel, item: &PossessionModel) -> (added: bool)
        ensures
            added == old(self)@.admits(owner.id, *item),
            added ==> final(self)@ == old(self)@.with_offer(owner.id, item.id),
            added ==> !final(self)@.trade_1_accept && !final(self)@.trade_2_accept,
            !added ==> final(self)@ == old(self)@,
    {
        if item.owner != owner.id {
            return false;
        }
        if self.trader_1.id == owner.id {
            self.trade_1_items.push(item.id);
            self.trade_1_accept = false;
            self.trade_2_accept = false;
            return true;
        } else if self.trader_2.id == owner.id {
            self.trade_2_items.push(item.id);
            self.trade_1_accept = false;
            self.trade_2_accept = false;
            return true;
        }
        return false;
    }

    /// Withdraws the first offer of `item` from the side of `owner`, whether
    /// or not the possession is still what the row says. An offer is
    /// withdrawn exactly when `owner` is a side of the trade and has the
    /// possession in its list; the other offers keep their order and both
    /// accept flags fall. Otherwise nothing changes.
    fn remove_from_trade(&mut self, owner: &OwnerModel, item: &PossessionModel) -> (removed: bool)
        ensures
            removed == old(self)@.offers(owner.id, item.id),
            final(self)@ == old(self)@.without_offer(owner.id, item.id),
            removed ==> !final(self)@.trade_1_accept && !final(self)@.trade_2_accept,
            !removed ==> final(self)@ == old(self)@,
    {
        self.withdraw(owner.id, item.id)
    }

    /// Flips the accept flag of `owner`, and of nobody else, and says
    /// whether it did: a stranger's call fails and changes nothing.
    fn change_trade_status(&mut self, owner: &OwnerModel) -> (flipped: bool)
        ensures
            flipped == old(self)@.involves(owner.id),
            final(self)@ == old(self)@.toggled(owner.id),
            !flipped ==> final(self)@ == old(self)@,
    {
        if self.trader_1.id == owner.id {
            self.trade_1_accept = !self.trade_1_accept;
            return true;
        } else if self.trader_2.id == owner.id {
            self.trade_2_accept = !self.trade_2_accept;
            return true;
        }
        return false;
    }
}

/// One move on a trade: an offer of a possession as the store has it, the
/// withdrawal of an offer by its id, or a toggle of acceptance.
#[derive(Clone, Copy, Debug)]
pub enum TradeOperation {
    AddItem { owner: OwnerModel, item: PossessionModel },
    RemoveItem { owner: OwnerModel, item_id: i32 },
    ToggleAccept { owner: OwnerModel },
}

impl TradeView {
    /// Whether the move takes effect: the offer is taken, an offer is
    /// withdrawn, the flag is the owner's to flip.
    pub open spec fn answers(self, operation: TradeOperation) -> bool {
        match operation {
            TradeOperation::AddItem { owner, item } => self.admits(owner.id, item),
            TradeOperation::RemoveItem { owner, item_id } => self.offers(owner.id, item_id),
            TradeOperation::ToggleAccept { owner } => self.involves(owner.id),
        }
    }

    /// The trade after the move; the trade itself where the move takes no
    /// effect.
    pub open spec fn after(self, operation: TradeOperation) -> TradeView {
        match operation {
            TradeOperation::AddItem { owner, item } => if self.admits(owner.id, item) {
                self.with_offer(owner.id, item.id)
            } else {
                self
            },
            TradeOperation::RemoveItem { owner, item_id } => self.without_offer(owner.id, item_id),
            TradeOperation::ToggleAccept { owner } => self.toggled(owner.id),
        }
    }
}

impl Trade {
    /// A trade between two owners with nothing offered and nothing accepted.
    pub fn new(id: TradeId, trader_1: OwnerModel, trader_2: OwnerModel) -> (trade: Trade)
        ensures
            trade@ == TradeView::fresh(id, trader_1.id, trader_2.id),
    {
        Trade {
            id,
            trader_1,
            trade_1_accept: false,
            trade_1_items: Vec::new(),
            trader_2,
            trade_2_accept: false,
            trade_2_items: Vec::new(),
        }
    }

    /// Withdraws the first offer of the possession `item_id` from the side
    /// of the owner `owner_id`, by the trade's own list alone. An offer is
    /// withdrawn exactly when the owner is a side of the trade and has the
    /// possession in its list; the other offers keep their order and both
    /// accept flags fall. Otherwise nothing changes.
    pub fn withdraw(&mut self, owner_id: i32, item_id: i32) -> (removed: bool)
        ensures
            removed == old(self)@.offers(owner_id, item_id),
            final(self)@ == old(self)@.without_offer(owner_id, item_id),
            removed ==> !final(self)@.trade_1_accept && !final(self)@.trade_2_accept,
            !removed ==> final(self)@ == old(self)@,
    {
        if self.trader_1.id == owner_id {
            if let Some(i) = first_position(&self.trade_1_items, item_id) {
                proof {
                    self.trade_1_items@.index_of_first_ensures(item_id);
                }
                self.trade_1_items.remove(i);
                self.trade_1_accept = false;
                self.trade_2_accept = false;
                return true;
            }
            proof {
                self.trade_1_items@.index_of_first_ensures(item_id);
            }
        } else if self.trader_2.id == owner_id {
            if let Some(i) = first_position(&self.trade_2_items, item_id) {
                proof {
                    self.trade_2_items@.index_of_first_ensures(item_id);
                }
                self.trade_2_items.remove(i);
                self.trade_1_accept = false;
                self.trade_2_accept = false;
                return true;
            }
            proof {
                self.trade_2_items@.index_of_first_ensures(item_id);
            }
        }
        return false;
    }

    /// Makes one move and says whether it took effect. The sides and the id
    /// of the trade never change.
    pub fn apply(&mut self, operation: TradeOperation) -> (effective: bool)
        ensures
            effective == old(self)@.answers(operation),
            final(self)@ == old(self)@.after(operation),
    {
        match operation {
            TradeOperation::AddItem { owner, item } => self.add_to_trade(&owner, &item),
            TradeOperation::RemoveItem { owner, item_id } => self.withdraw(owner.id, item_id),
            TradeOperation::ToggleAccept { owner } => self.change_trade_status(&owner),
        }
    }
}

} // verus!
