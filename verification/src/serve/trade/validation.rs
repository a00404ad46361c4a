//! The checks that stand before every change of a trade. Each one reads and
//! changes nothing, and each failure has an error of its own.

use crate::db::database::StoreImage;
use crate::db::entities::owner::Model as OwnerModel;
use crate::db::entities::possession::Model as PossessionModel;
use crate::serve::trade::error::{Missing, Refusal, TradeError};
use crate::serve::trade::logic::Trade;
use crate::serve::trade::registry::TradeRegistry;
use vstd::prelude::*;

verus! {

/// The owner `id` of the store, or the error that there is none.
pub fn existing_owner(database: &StoreImage, id: i32) -> (result: Result<OwnerModel, TradeError>)
    ensures
        result == match database@.owner(id) {
            Some(owner) => Ok::<OwnerModel, TradeError>(owner),
            None => Err::<OwnerModel, TradeError>(TradeError::NotFound(Missing::Owner(id))),
        },
{
    match database.find_owner_by_id(id) {
        Some(owner) => Ok(owner),
        None => Err(TradeError::NotFound(Missing::Owner(id))),
    }
}

/// The owner `id` of the store as a side of a trade to be opened, or the
/// refusal that names it as unknown.
pub fn existing_trader(database: &StoreImage, id: i32) -> (result: Result<OwnerModel, TradeError>)
    ensures
        result == match database@.owner(id) {
            Some(owner) => Ok::<OwnerModel, TradeError>(owner),
            None => Err::<OwnerModel, TradeError>(
                TradeError::InvalidRequest(Refusal::UnknownTrader(id)),
            ),
        },
{
    match database.find_owner_by_id(id) {
        Some(owner) => Ok(owner),
        None => Err(TradeError::InvalidRequest(Refusal::UnknownTrader(id))),
    }
}

/// The possession `id` of the store, or the error that there is none.
pub fn existing_possession(database: &StoreImage, id: i32) -> (result: Result<
    PossessionModel,
    TradeError,
>)
    ensures
        result == match database@.possession(id) {
            Some(possession) => Ok::<PossessionModel, TradeError>(possession),
            None => Err::<PossessionModel, TradeError>(
                TradeError::NotFound(Missing::Possession(id)),
            ),
        },
{
    match database.find_possession_by_id(id) {
        Some(possession) => Ok(possession),
        None => Err(TradeError::NotFound(Missing::Possession(id))),
    }
}

/// The open trade `id`, or the error that there is none.
pub fn existing_trade(trades: &TradeRegistry, id: u64) -> (result: Result<&Trade, TradeError>)
    ensures
        match result {
            Ok(trade) => trades@.trades.contains_key(id) && trade@ == trades@.trades[id],
            Err(error) => !trades@.trades.contains_key(id) && error == TradeError::NotFound(
                Missing::Trade(id),
            ),
        },
{
    match trades.get(id) {
        Some(trade) => Ok(trade),
        None => Err(TradeError::NotFound(Missing::Trade(id))),
    }
}

/// Passes exactly when the possession is held by the owner.
pub fn owned_by(possession: &PossessionModel, owner: &OwnerModel) -> (result: Result<
    (),
    TradeError,
>)
    ensures
        result == if possession.owner == owner.id {
            Ok::<(), TradeError>(())
        } else {
            Err::<(), TradeError>(TradeError::InvalidRequest(Refusal::OwnershipMismatch))
        },
{
    if possession.owner != owner.id {
        return Err(TradeError::InvalidRequest(Refusal::OwnershipMismatch));
    }
    Ok(())
}

/// Passes exactly when the owner is one of the two sides of the trade.
pub fn party_to(trade: &Trade, owner: &OwnerModel) -> (result: Result<(), TradeError>)
    ensures
        result == if trade@.involves(owner.id) {
            Ok::<(), TradeError>(())
        } else {
            Err::<(), TradeError>(TradeError::InvalidRequest(Refusal::TraderNotInTrade))
        },
{
    if trade.trader_1.id != owner.id && trade.trader_2.id != owner.id {
        return Err(TradeError::InvalidRequest(Refusal::TraderNotInTrade));
    }
    Ok(())
}

/// Passes exactly when the two owners are different.
pub fn distinct_traders(trader_1: &OwnerModel, trader_2: &OwnerModel) -> (result: Result<
    (),
    TradeError,
>)
    ensures
        result == if trader_1.id != trader_2.id {
            Ok::<(), TradeError>(())
        } else {
            Err::<(), TradeError>(TradeError::InvalidRequest(Refusal::SameTraderTwice))
        },
{
    if trader_1.id == trader_2.id {
        return Err(TradeError::InvalidRequest(Refusal::SameTraderTwice));
    }
    Ok(())
}

} // verus!
