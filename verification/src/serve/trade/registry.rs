//! The registry of open trades: every trade under its id, and the counter
//! that mints the ids.

use crate::db::database::{StoreImage, StoreView};
use crate::serve::trade::error::{Missing, Refusal, TradeError};
use crate::serve::trade::logic::{Trade, TradeId, TradeOperation, TradeView};
use crate::serve::trade::routes::TradeResponse;
use crate::serve::trade::validation::{distinct_traders, existing_trader};
use std::collections::HashMap;
use vstd::prelude::*;
use vstd::std_specs::hash::spec_hash_map_iter;
use vstd::std_specs::iter::IteratorSpec;

verus! {

broadcast use vstd::std_specs::hash::group_hash_axioms;

/// The open trades, and the id that the next trade will get. Whoever holds
/// the registry mutably holds every trade in it: no move on one trade runs
/// beside a move on another.
pub struct TradeRegistry {
    trades: HashMap<TradeId, Trade>,
    next_id: u64,
}

/// The mathematical content of a [`TradeRegistry`].
pub struct RegistryView {
    pub trades: Map<u64, TradeView>,
    pub next_id: u64,
}

/// Why no trade can be opened between the owners `trader_1` and `trader_2`,
/// if it cannot: the first of the two that the store does not know, else
/// that they are one and the same.
pub open spec fn creation_refusal(store: StoreView, trader_1: i32, trader_2: i32) -> Option<
    Refusal,
> {
    if store.owner(trader_1) is None {
        Some(Refusal::UnknownTrader(trader_1))
    } else if store.owner(trader_2) is None {
        Some(Refusal::UnknownTrader(trader_2))
    } else if trader_1 == trader_2 {
        Some(Refusal::SameTraderTwice)
    } else {
        None
    }
}

impl RegistryView {
    /// Every trade stands under its own id, has two different sides, and has
    /// an id that the counter has already passed. The counter starts at 1.
    pub open spec fn well_formed(self) -> bool {
        &&& self.next_id >= 1
        &&& self.trades.dom().finite()
        &&& forall|id: u64| #[trigger]
            self.trades.contains_key(id) ==> {
                &&& self.trades[id].id == id
                &&& id < self.next_id
                &&& self.trades[id].well_formed()
            }
    }

    /// The registry before any trade was opened.
    pub open spec fn initial() -> RegistryView {
        RegistryView { trades: Map::empty(), next_id: 1 }
    }

    /// The registry after a trade between the two owners has been opened
    /// under the next id.
    pub open spec fn opened(self, trader_1: i32, trader_2: i32) -> RegistryView
        recommends
            self.next_id < u64::MAX,
    {
        RegistryView {
            trades: self.trades.insert(
                self.next_id,
                TradeView::fresh(self.next_id, trader_1, trader_2),
            ),
            next_id: (self.next_id + 1) as u64,
        }
    }

    /// `all` reports every trade of the registry as it stands, each trade
    /// once, in whatever order.
    pub open spec fn listed_as(self, all: Seq<TradeResponse>) -> bool {
        &&& all.len() == self.trades.len()
        &&& forall|i: int|
            0 <= i < all.len() ==> {
                &&& self.trades.contains_key(#[trigger] all[i]@.id)
                &&& self.trades[all[i]@.id] == all[i]@
            }
        &&& forall|id: u64| #[trigger]
            self.trades.contains_key(id) ==> exists|i: int|
                0 <= i < all.len() && all[i]@.id == id
    }

    /// The registry without the trade `id`.
    pub open spec fn closed(self, id: u64) -> RegistryView {
        RegistryView { trades: self.trades.remove(id), ..self }
    }

    /// What a cancellation of the trade `id` answers: it succeeds exactly
    /// when the trade is open.
    pub open spec fn cancellation(self, id: u64) -> Result<(), TradeError> {
        if self.trades.contains_key(id) {
            Ok(())
        } else {
            Err(TradeError::NotFound(Missing::Trade(id)))
        }
    }

    /// The registry after one move on the trade `id`; the registry itself
    /// where there is no such trade.
    pub open spec fn moved(self, id: u64, operation: TradeOperation) -> RegistryView {
        if self.trades.contains_key(id) {
            RegistryView {
                trades: self.trades.insert(id, self.trades[id].after(operation)),
                ..self
            }
        } else {
            self
        }
    }
}

impl View for TradeRegistry {
    type V = RegistryView;

    closed spec fn view(&self) -> RegistryView {
        RegistryView {
            trades: self.trades@.map_values(|trade: Trade| trade@),
            next_id: self.next_id,
        }
    }
}

impl TradeRegistry {
    /// A registry with no trade, whose first id will be 1.
    pub fn new() -> (registry: Self)
        ensures
            registry@ == RegistryView::initial(),
            registry@.well_formed(),
    {
        let registry = TradeRegistry { trades: HashMap::new(), next_id: 1 };
        assert(registry@.trades =~= Map::<u64, TradeView>::empty());
        registry
    }

    /// The id that the next trade will get.
    pub fn next_id(&self) -> (id: u64)
        ensures
            id == self@.next_id,
    {
        self.next_id
    }

    /// Opens a trade between two owners of the store and returns its id.
    ///
    /// The trade is refused, and the registry left as it is, when the store
    /// does not know one of the owners or when both are the same. Otherwise
    /// the trade gets the next id, which no trade had before, and starts
    /// with empty offer lists and both accept flags down.
    pub fn create(&mut self, trader_1_id: i32, trader_2_id: i32, database: &StoreImage) -> (result:
        Result<TradeId, TradeError>)
        requires
            old(self)@.well_formed(),
            old(self)@.next_id < u64::MAX,
            database@.well_formed(),
        ensures
            final(self)@.well_formed(),
            match creation_refusal(database@, trader_1_id, trader_2_id) {
                Some(refusal) => {
                    &&& result == Err::<TradeId, TradeError>(TradeError::InvalidRequest(refusal))
                    &&& final(self)@ == old(self)@
                },
                None => {
                    &&& result == Ok::<TradeId, TradeError>(old(self)@.next_id)
                    &&& !old(self)@.trades.contains_key(old(self)@.next_id)
                    &&& final(self)@ == old(self)@.opened(trader_1_id, trader_2_id)
                },
            },
    {
        let trader_1 = existing_trader(database, trader_1_id)?;
        let trader_2 = existing_trader(database, trader_2_id)?;
        distinct_traders(&trader_1, &trader_2)?;
        let trade_id = self.next_id;
        self.next_id = self.next_id + 1;
        self.trades.insert(trade_id, Trade::new(trade_id, trader_1, trader_2));
        assert(self@.trades =~= old(self)@.opened(trader_1_id, trader_2_id).trades);
        Ok(trade_id)
    }

    /// The trade `id`, if it is open.
    pub fn get(&self, id: TradeId) -> (found: Option<&Trade>)
        ensures
            match found {
                Some(trade) => self@.trades.contains_key(id) && trade@ == self@.trades[id],
                None => !self@.trades.contains_key(id),
            },
    {
        self.trades.get(&id)
    }

    /// Makes one move on the trade `id` while holding the whole registry,
    /// and says whether the move took effect. Fails, and changes nothing,
    /// when there is no such trade.
    pub fn with_trade(&mut self, id: TradeId, operation: TradeOperation) -> (result: Result<
        bool,
        TradeError,
    >)
        requires
            old(self)@.well_formed(),
        ensures
            final(self)@.well_formed(),
            final(self)@ == old(self)@.moved(id, operation),
            result == if old(self)@.trades.contains_key(id) {
                Ok::<bool, TradeError>(old(self)@.trades[id].answers(operation))
            } else {
                Err::<bool, TradeError>(TradeError::NotFound(Missing::Trade(id)))
            },
    {
        match self.trades.remove(&id) {
            Some(trade) => {
                let mut trade = trade;
                let effective = trade.apply(operation);
                self.trades.insert(id, trade);
                assert(self@.trades =~= old(self)@.moved(id, operation).trades);
                Ok(effective)
            },
            None => {
                assert(self@.trades =~= old(self)@.trades);
                Err(TradeError::NotFound(Missing::Trade(id)))
            },
        }
    }

    /// Takes the trade `id` out of the registry and hands it over. Fails,
    /// and changes nothing, when there is no such trade. The id is not
    /// given out again.
    pub fn remove(&mut self, id: TradeId) -> (result: Result<Trade, TradeError>)
        requires
            old(self)@.well_formed(),
        ensures
            final(self)@.well_formed(),
            final(self)@ == old(self)@.closed(id),
            match result {
                Ok(trade) => old(self)@.trades.contains_key(id) && trade@ == old(self)@.trades[id],
                Err(error) => !old(self)@.trades.contains_key(id) && error == TradeError::NotFound(
                    Missing::Trade(id),
                ),
            },
    {
        match self.trades.remove(&id) {
            Some(trade) => {
                assert(self@.trades =~= old(self)@.closed(id).trades);
                Ok(trade)
            },
            None => {
                assert(self@.trades =~= old(self)@.closed(id).trades);
                Err(TradeError::NotFound(Missing::Trade(id)))
            },
        }
    }

    /// A report of every open trade as it stands at this moment, each trade
    /// once, in no particular order.
    pub fn list(&self) -> (all: Vec<TradeResponse>)
        requires
            self@.well_formed(),
        ensures
            self@.listed_as(all@),
    {
        let mut all: Vec<TradeResponse> = Vec::new();
        for pair in entries: self.trades.iter()
            invariant
                entries.seq() == spec_hash_map_iter(
                    &self.trades,
                ).remaining(),
                all@.len() == entries.index(),
                forall|i: int| 0 <= i < all@.len() ==> all@[i]@ == (*entries.seq()[i].1)@,
        {
            all.push(TradeResponse::of(pair.1));
        }
        proof {
            let pairs = spec_hash_map_iter(&self.trades).remaining();
            assert(self@.trades.dom() =~= self.trades@.dom());
            assert forall|i: int| 0 <= i < all@.len() implies {
                &&& self@.trades.contains_key(#[trigger] all@[i]@.id)
                &&& self@.trades[all@[i]@.id] == all@[i]@
            } by {
                assert(self@.trades.contains_key(*pairs[i].0));
            }
            assert forall|id: u64| #[trigger] self@.trades.contains_key(id) implies exists|i: int|
                0 <= i < all@.len() && all@[i]@.id == id by {
                let pair = (&id, &self.trades@[id]);
                let i = choose|i: int| 0 <= i < pairs.len() && pairs[i] == pair;
                assert(all@[i]@.id == id);
            }
        }
        all
    }
}

} // verus!
