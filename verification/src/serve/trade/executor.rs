//! The executor: an accepted trade becomes a swap of ownership in the store.

use crate::db::database::{StoreImage, StoreView};
use crate::db::entities::possession::Model as PossessionModel;
use crate::serve::trade::error::{Missing, StoreError, TradeError};
use crate::serve::trade::logic::{Trade, TradeId, TradeView};
use crate::serve::trade::registry::TradeRegistry;
use crate::serve::trade::validation::existing_trade;
use vstd::prelude::*;

verus! {

impl TradeView {
    /// Who holds the possession `id` once the trade is executed, if `before`
    /// held it until then: what the second side offered goes to the first,
    /// what the first side offered goes to the second, and nothing else
    /// moves. A possession that both sides offered ends with the first.
    pub open spec fn owner_after(self, id: i32, before: i32) -> i32 {
        if self.trade_2_items.contains(id) {
            self.trader_1
        } else if self.trade_1_items.contains(id) {
            self.trader_2
        } else {
            before
        }
    }
}

/// The store after every possession among `items` that it knows has passed
/// to `new_owner`.
pub open spec fn handed_over(store: StoreView, items: Seq<i32>, new_owner: i32) -> StoreView {
    StoreView {
        possessions: Map::new(
            |id: i32| store.possessions.contains_key(id),
            |id: i32|
                if items.contains(id) {
                    PossessionModel { owner: new_owner, ..store.possessions[id] }
                } else {
                    store.possessions[id]
                },
        ),
        ..store
    }
}

/// The store after the trade is executed: the same rows, each possession
/// with the owner that the trade gives it. An offer that names no row of the
/// store moves nothing.
pub open spec fn executed(trade: TradeView, store: StoreView) -> StoreView {
    StoreView {
        possessions: Map::new(
            |id: i32| store.possessions.contains_key(id),
            |id: i32|
                PossessionModel {
                    owner: trade.owner_after(id, store.possessions[id].owner),
                    ..store.possessions[id]
                },
        ),
        ..store
    }
}

/// Hands every possession of `items` that the store knows to `new_owner`,
/// in the order of the list, and passes over the others.
fn hand_over(items: &Vec<i32>, new_owner: i32, database: &mut StoreImage)
    requires
        old(database)@.well_formed(),
    ensures
        final(database)@.well_formed(),
        final(database)@ == handed_over(old(database)@, items@, new_owner),
{
    let mut index: usize = 0;
    assert(database@.possessions =~= handed_over(
        old(database)@,
        items@.take(0),
        new_owner,
    ).possessions);
    while index < items.len()
        invariant
            index <= items.len(),
            database@.well_formed(),
            database@ == handed_over(old(database)@, items@.take(index as int), new_owner),
        decreases items.len() - index,
    {
        let item_id = items[index];
        if let Some(_possession) = database.find_possession_by_id(item_id) {
            database.update_possession_owner(item_id, new_owner);
        }
        proof {
            let before = items@.take(index as int);
            let after = items@.take(index as int + 1);
            assert forall|id: i32| after.contains(id) <==> before.contains(id) || id == item_id by {
                if id == item_id {
                    assert(after[index as int] == id);
                }
            }
            assert(database@.possessions =~= handed_over(
                old(database)@,
                after,
                new_owner,
            ).possessions);
        }
        index += 1;
    }
    assert(items@.take(index as int) =~= items@);
}

/// Executes a trade that both sides have accepted.
///
/// Every possession that the first side offers and the store knows passes to
/// the second side, then every possession that the second side offers and
/// the store knows passes to the first. An offer whose possession the store
/// no longer knows is passed over; no row is added or dropped, and no other
/// row changes.
pub fn execute_trade_internal(trade: &Trade, database: &mut StoreImage)
    requires
        trade@.both_accepted(),
        old(database)@.well_formed(),
    ensures
        final(database)@.well_formed(),
        final(database)@ == executed(trade@, old(database)@),
{
    hand_over(&trade.trade_1_items, trade.trader_2.id, database);
    hand_over(&trade.trade_2_items, trade.trader_1.id, database);
    assert(database@.possessions =~= executed(trade@, old(database)@).possessions);
}

/// Executes the trade `id` of the registry if both of its sides accept it at
/// this moment, and says whether it did. While this runs the registry is
/// borrowed, so no move can change the flags between the test and the
/// exchange. Where the trade is not accepted by both, or is not there, the
/// store is left as it is.
pub fn execute_trade(id: TradeId, trades: &TradeRegistry, database: &mut StoreImage) -> (result:
    Result<bool, TradeError>)
    requires
        old(database)@.well_formed(),
    ensures
        final(database)@.well_formed(),
        match trades@.trades.get(id) {
            None => {
                &&& result == Err::<bool, TradeError>(TradeError::NotFound(Missing::Trade(id)))
                &&& final(database)@ == old(database)@
            },
            Some(trade) => {
                &&& result == Ok::<bool, TradeError>(trade.both_accepted())
                &&& final(database)@ == if trade.both_accepted() {
                    executed(trade, old(database)@)
                } else {
                    old(database)@
                }
            },
        },
{
    let trade = existing_trade(trades, id)?;
    if trade.trade_1_accept && trade.trade_2_accept {
        execute_trade_internal(trade, database);
        Ok(true)
    } else {
        Ok(false)
    }
}

/// Closes the trade `id` after its exchange was sent to the store.
///
/// Where the store committed, the trade leaves the registry and is handed
/// over (`None` where it had already left). Where the store failed, its
/// error is passed on and the registry is left as it is: the trade is still
/// open, to be tried again or cancelled.
pub fn conclude_trade(
    id: TradeId,
    outcome: Result<(), StoreError>,
    trades: &mut TradeRegistry,
) -> (result: Result<Option<Trade>, TradeError>)
    requires
        old(trades)@.well_formed(),
    ensures
        final(trades)@.well_formed(),
        match outcome {
            Err(failure) => {
                &&& result == Err::<Option<Trade>, TradeError>(
                    TradeError::ExecutionFailure(failure),
                )
                &&& final(trades)@ == old(trades)@
            },
            Ok(_) => {
                &&& final(trades)@ == old(trades)@.closed(id)
                &&& match result {
                    Ok(Some(trade)) => old(trades)@.trades.contains_key(id) && trade@ == old(
                        trades,
                    )@.trades[id],
                    Ok(None) => !old(trades)@.trades.contains_key(id),
                    Err(_) => false,
                }
            },
        },
{
    match outcome {
        Err(failure) => Err(TradeError::ExecutionFailure(failure)),
        Ok(_) => {
            match trades.remove(id) {
                Ok(trade) => Ok(Some(trade)),
                Err(_) => Ok(None),
            }
        },
    }
}

} // verus!
