//! The requests on trades, each from its validation to its answer.

use crate::db::database::{StoreImage, StoreView};
use crate::db::entities::owner::Model as OwnerModel;
pub use crate::serve::response::ApiResponse;
use crate::serve::serve_main::{route, Method, MountView, Route, RouteView, Service};
use crate::serve::trade::error::{Missing, Refusal, TradeError};
use crate::serve::trade::logic::{Trade, TradeOperation, TradeView};
use crate::serve::trade::registry::{creation_refusal, RegistryView, TradeRegistry};
use crate::serve::trade::validation::{
    existing_owner, existing_possession, existing_trade, owned_by, party_to,
};
use crate::text::{push_signed_decimal, signed_decimal};
use vstd::prelude::*;

verus! {

/// A trade as it is reported to a caller: a copy, taken at one moment.
#[derive(Clone, Debug, PartialEq, Eq)]
pub struct TradeResponse {
    pub id: u64,
    pub trader_1_id: i32,
    pub trader_1_items: Vec<i32>,
    pub trader_1_accept: bool,
    pub trader_2_id: i32,
    pub trader_2_items: Vec<i32>,
    pub trader_2_accept: bool,
}

/// The request to open a trade between two owners.
#[derive(Clone, Copy, Debug, PartialEq, Eq, Structural)]
pub struct CreateTradeRequest {
    pub trader_1_id: i32,
    pub trader_2_id: i32,
}

/// The request to offer a possession, or to withdraw the offer.
#[derive(Clone, Copy, Debug, PartialEq, Eq, Structural)]
pub struct TradeItemRequest {
    pub owner_id: i32,
    pub item_id: i32,
}

impl View for TradeResponse {
    type V = TradeView;

    open spec fn view(&self) -> TradeView {
        TradeView {
            id: self.id,
            trader_1: self.trader_1_id,
            trade_1_accept: self.trader_1_accept,
            trade_1_items: self.trader_1_items@,
            trader_2: self.trader_2_id,
            trade_2_accept: self.trader_2_accept,
            trade_2_items: self.trader_2_items@,
        }
    }
}

impl TradeResponse {
    /// The report of a trade as it stands.
    pub fn of(trade: &Trade) -> (response: TradeResponse)
        ensures
            response@ == trade@,
    {
        TradeResponse {
            id: trade.id,
            trader_1_id: trade.trader_1.id,
            trader_1_items: trade.trade_1_items.clone(),
            trader_1_accept: trade.trade_1_accept,
            trader_2_id: trade.trader_2.id,
            trader_2_items: trade.trade_2_items.clone(),
            trader_2_accept: trade.trade_2_accept,
        }
    }
}

/// What a toggle of acceptance leads to.
#[derive(Clone, Debug, PartialEq, Eq)]
pub enum Acceptance {
    /// The flag was flipped and at least one side has yet to accept: the
    /// trade is reported as it stands.
    StatusUpdated(TradeResponse),
    /// The flag was flipped and both sides now accept: the trade as reported
    /// is due for execution.
    ReadyToExecute(TradeResponse),
}

/// Why the owner in `request` cannot offer the possession in `request` in
/// the trade `id`, if it cannot. The checks run in this order: the owner
/// exists, the possession exists, the possession is the owner's, the trade
/// exists, the owner is one of its sides.
pub open spec fn offer_refusal(
    trades: RegistryView,
    store: StoreView,
    id: u64,
    request: TradeItemRequest,
) -> Option<TradeError> {
    if !store.owners.contains_key(request.owner_id) {
        Some(TradeError::NotFound(Missing::Owner(request.owner_id)))
    } else if !store.possessions.contains_key(request.item_id) {
        Some(TradeError::NotFound(Missing::Possession(request.item_id)))
    } else if store.possessions[request.item_id].owner != request.owner_id {
        Some(TradeError::InvalidRequest(Refusal::OwnershipMismatch))
    } else if !trades.trades.contains_key(id) {
        Some(TradeError::NotFound(Missing::Trade(id)))
    } else if !trades.trades[id].involves(request.owner_id) {
        Some(TradeError::InvalidRequest(Refusal::TraderNotInTrade))
    } else {
        None
    }
}

/// Why the owner in `request` cannot withdraw an offer in the trade `id`,
/// if it cannot. A withdrawal goes by the trade alone and asks nothing of
/// the store: the trade exists, and the owner is one of its sides.
pub open spec fn withdrawal_refusal(trades: RegistryView, id: u64, request: TradeItemRequest) -> Option<
    TradeError,
> {
    if !trades.trades.contains_key(id) {
        Some(TradeError::NotFound(Missing::Trade(id)))
    } else if !trades.trades[id].involves(request.owner_id) {
        Some(TradeError::InvalidRequest(Refusal::TraderNotInTrade))
    } else {
        None
    }
}

/// Why the owner `owner_id` cannot flip an accept flag of the trade `id`,
/// if it cannot. The checks run in this order: the owner exists, the trade
/// exists, the owner is one of its sides.
pub open spec fn acceptance_refusal(
    trades: RegistryView,
    store: StoreView,
    id: u64,
    owner_id: i32,
) -> Option<TradeError> {
    if !store.owners.contains_key(owner_id) {
        Some(TradeError::NotFound(Missing::Owner(owner_id)))
    } else if !trades.trades.contains_key(id) {
        Some(TradeError::NotFound(Missing::Trade(id)))
    } else if !trades.trades[id].involves(owner_id) {
        Some(TradeError::InvalidRequest(Refusal::TraderNotInTrade))
    } else {
        None
    }
}

/// Every open trade, as it stands at this moment: each trade once, in no
/// particular order.
pub fn get_all_trades(trades: &TradeRegistry) -> (all: Vec<TradeResponse>)
    requires
        trades@.well_formed(),
    ensures
        trades@.listed_as(all@),
{
    trades.list()
}

/// The trade `id` as it stands, if it is open.
pub fn get_trade_by_id(id: u64, trades: &TradeRegistry) -> (result: Result<
    TradeResponse,
    TradeError,
>)
    ensures
        match result {
            Ok(response) => trades@.trades.contains_key(id) && response@ == trades@.trades[id],
            Err(error) => !trades@.trades.contains_key(id) && error == TradeError::NotFound(
                Missing::Trade(id),
            ),
        },
{
    Ok(TradeResponse::of(existing_trade(trades, id)?))
}

/// Opens a trade between the two owners that the request names, and reports
/// it: the next id of the registry, empty offer lists, both flags down.
///
/// Refused, with the registry left as it is, when the store does not know
/// one of the owners or when both are the same.
pub fn create_trade(
    trade_data: &CreateTradeRequest,
    trades: &mut TradeRegistry,
    database: &StoreImage,
) -> (result: Result<TradeResponse, TradeError>)
    requires
        old(trades)@.well_formed(),
        old(trades)@.next_id < u64::MAX,
        database@.well_formed(),
    ensures
        final(trades)@.well_formed(),
        match creation_refusal(database@, trade_data.trader_1_id, trade_data.trader_2_id) {
            Some(refusal) => {
                &&& result == Err::<TradeResponse, TradeError>(TradeError::InvalidRequest(refusal))
                &&& final(trades)@ == old(trades)@
            },
            None => {
                &&& final(trades)@ == old(trades)@.opened(
                    trade_data.trader_1_id,
                    trade_data.trader_2_id,
                )
                &&& !old(trades)@.trades.contains_key(old(trades)@.next_id)
                &&& result matches Ok(response) && response@ == TradeView::fresh(
                    old(trades)@.next_id,
                    trade_data.trader_1_id,
                    trade_data.trader_2_id,
                )
            },
        },
{
    match trades.create(trade_data.trader_1_id, trade_data.trader_2_id, database) {
        Err(error) => Err(error),
        Ok(trade_id) => get_trade_by_id(trade_id, trades),
    }
}

/// Offers a possession in the trade `id` on behalf of its owner, and
/// reports the trade as it then stands.
///
/// The offer is refused, with the registry left as it is, for the first
/// reason that [`offer_refusal`] finds. Otherwise the possession goes to the
/// end of the owner's offer list and both accept flags fall.
pub fn add_item_to_trade(
    id: u64,
    item_data: &TradeItemRequest,
    trades: &mut TradeRegistry,
    database: &StoreImage,
) -> (result: Result<TradeResponse, TradeError>)
    requires
        old(trades)@.well_formed(),
        database@.well_formed(),
    ensures
        final(trades)@.well_formed(),
        match offer_refusal(old(trades)@, database@, id, *item_data) {
            Some(error) => {
                &&& result == Err::<TradeResponse, TradeError>(error)
                &&& final(trades)@ == old(trades)@
            },
            None => {
                &&& final(trades)@ == old(trades)@.moved(
                    id,
                    TradeOperation::AddItem {
                        owner: database@.owners[item_data.owner_id],
                        item: database@.possessions[item_data.item_id],
                    },
                )
                &&& final(trades)@.trades[id] == old(trades)@.trades[id].with_offer(
                    item_data.owner_id,
                    item_data.item_id,
                )
                &&& result matches Ok(response) && response@ == final(trades)@.trades[id]
                &&& !final(trades)@.trades[id].trade_1_accept
                &&& !final(trades)@.trades[id].trade_2_accept
            },
        },
{
    let owner = existing_owner(database, item_data.owner_id)?;
    let possession = existing_possession(database, item_data.item_id)?;
    owned_by(&possession, &owner)?;
    party_to(existing_trade(trades, id)?, &owner)?;
    let _added = trades.with_trade(id, TradeOperation::AddItem { owner, item: possession });
    get_trade_by_id(id, trades)
}

/// Withdraws the first offer of a possession from the trade `id` on behalf
/// of the owner who made it.
///
/// Only the trade's own list is asked: an offer can be withdrawn whether or
/// not the store still has the possession or the owner. The request is
/// refused, with the registry left as it is, for the first reason that
/// [`withdrawal_refusal`] finds. Otherwise the answer is the trade as it
/// then stands exactly when the owner's list held the possession: its first
/// offer has left the list, the other offers keep their order, and both
/// accept flags are down. The answer is `None` exactly when the owner had
/// not offered the possession: then nothing has changed.
pub fn remove_item_from_trade(
    id: u64,
    item_data: &TradeItemRequest,
    trades: &mut TradeRegistry,
) -> (result: Result<Option<TradeResponse>, TradeError>)
    requires
        old(trades)@.well_formed(),
    ensures
        final(trades)@.well_formed(),
        match withdrawal_refusal(old(trades)@, id, *item_data) {
            Some(error) => {
                &&& result == Err::<Option<TradeResponse>, TradeError>(error)
                &&& final(trades)@ == old(trades)@
            },
            None => {
                let before = old(trades)@.trades[id];
                let after = before.without_offer(item_data.owner_id, item_data.item_id);
                &&& final(trades)@ == old(trades)@.moved(
                    id,
                    TradeOperation::RemoveItem {
                        owner: OwnerModel { id: item_data.owner_id },
                        item_id: item_data.item_id,
                    },
                )
                &&& final(trades)@.trades[id] == after
                &&& match result {
                    Ok(Some(response)) => {
                        &&& before.offers(item_data.owner_id, item_data.item_id)
                        &&& response@ == after
                        &&& after.offers_of(item_data.owner_id) == before.offers_of(
                            item_data.owner_id,
                        ).remove_value(item_data.item_id)
                        &&& !after.trade_1_accept
                        &&& !after.trade_2_accept
                    },
                    Ok(None) => {
                        &&& !before.offers(item_data.owner_id, item_data.item_id)
                        &&& final(trades)@ == old(trades)@
                    },
                    Err(_) => false,
                }
            },
        },
{
    let owner = OwnerModel { id: item_data.owner_id };
    party_to(existing_trade(trades, id)?, &owner)?;
    let operation = TradeOperation::RemoveItem { owner, item_id: item_data.item_id };
    match trades.with_trade(id, operation) {
        Ok(true) => {
            match get_trade_by_id(id, trades) {
                Ok(response) => Ok(Some(response)),
                Err(error) => Err(error),
            }
        },
        Ok(false) => {
            assert(trades@.trades =~= old(trades)@.trades);
            Ok(None)
        },
        Err(error) => Err(error),
    }
}

/// Flips the accept flag of the owner `owner_id` in the trade `id`, and of
/// nobody else, and says what follows.
///
/// The request is refused, with the registry left as it is, for the first
/// reason that [`acceptance_refusal`] finds. Otherwise the answer is
/// [`Acceptance::ReadyToExecute`] exactly when both flags of the trade are
/// up once this one is flipped, both read from the one state that the
/// registry is left in; the trade stays in the registry either way.
pub fn accept_trade(
    id: u64,
    owner_id: i32,
    trades: &mut TradeRegistry,
    database: &StoreImage,
) -> (result: Result<Acceptance, TradeError>)
    requires
        old(trades)@.well_formed(),
        database@.well_formed(),
    ensures
        final(trades)@.well_formed(),
        match acceptance_refusal(old(trades)@, database@, id, owner_id) {
            Some(error) => {
                &&& result == Err::<Acceptance, TradeError>(error)
                &&& final(trades)@ == old(trades)@
            },
            None => {
                let after = old(trades)@.trades[id].toggled(owner_id);
                &&& final(trades)@ == old(trades)@.moved(
                    id,
                    TradeOperation::ToggleAccept { owner: database@.owners[owner_id] },
                )
                &&& final(trades)@.trades[id] == after
                &&& match result {
                    Ok(Acceptance::ReadyToExecute(response)) => {
                        response@ == after && after.both_accepted()
                    },
                    Ok(Acceptance::StatusUpdated(response)) => {
                        response@ == after && !after.both_accepted()
                    },
                    Err(_) => false,
                }
            },
        },
{
    let owner = existing_owner(database, owner_id)?;
    party_to(existing_trade(trades, id)?, &owner)?;
    let _flipped = trades.with_trade(id, TradeOperation::ToggleAccept { owner });
    match get_trade_by_id(id, trades) {
        Ok(response) => {
            if response.trader_1_accept && response.trader_2_accept {
                Ok(Acceptance::ReadyToExecute(response))
            } else {
                Ok(Acceptance::StatusUpdated(response))
            }
        },
        Err(error) => Err(error),
    }
}

/// Cancels the trade `id`: it leaves the registry, whatever its state.
/// Fails, and changes nothing, when there is no such trade; so a second
/// cancellation of one trade fails.
pub fn cancel_trade(id: u64, trades: &mut TradeRegistry) -> (result: Result<(), TradeError>)
    requires
        old(trades)@.well_formed(),
    ensures
        final(trades)@.well_formed(),
        final(trades)@ == old(trades)@.closed(id),
        !final(trades)@.trades.contains_key(id),
        result == old(trades)@.cancellation(id),
{
    match trades.remove(id) {
        Ok(_trade) => Ok(()),
        Err(error) => Err(error),
    }
}

/// How an accept flag reads in a status message.
pub open spec fn flag_text(accept: bool) -> Seq<char> {
    if accept {
        "Accepted"@
    } else {
        "Not accepted"@
    }
}

/// The message that reports the two accept flags of a trade.
pub open spec fn status_text(trade: TradeView) -> Seq<char> {
    "Trade acceptance status updated. Trader 1: "@ + flag_text(trade.trade_1_accept)
        + ", Trader 2: "@ + flag_text(trade.trade_2_accept)
}

/// The message that reports an executed trade: with its two sides where the
/// trade was still in the registry when it was closed.
pub open spec fn executed_text(closed: Option<TradeView>) -> Seq<char> {
    match closed {
        Some(trade) => "Trade between "@ + signed_decimal(trade.trader_1 as int) + " and "@
            + signed_decimal(trade.trader_2 as int) + " executed successfully"@,
        None => "Trade executed successfully"@,
    }
}

fn flag_word(accept: bool) -> (word: &'static str)
    ensures
        word@ == flag_text(accept),
{
    if accept {
        "Accepted"
    } else {
        "Not accepted"
    }
}

/// The answer to a toggle that left the trade open: where the two accept
/// flags now stand.
pub fn status_response(trade: &TradeResponse) -> (response: ApiResponse)
    ensures
        response.message@ == status_text(trade@),
{
    let mut message = String::from_str("Trade acceptance status updated. Trader 1: ");
    message.append(flag_word(trade.trader_1_accept));
    message.append(", Trader 2: ");
    message.append(flag_word(trade.trader_2_accept));
    ApiResponse { message }
}

/// The answer to a toggle that led to an execution which the store
/// committed; `closed` is what [`conclude_trade`] handed over.
///
/// [`conclude_trade`]: crate::serve::trade::executor::conclude_trade
pub fn executed_response(closed: &Option<Trade>) -> (response: ApiResponse)
    ensures
        response.message@ == executed_text(
            match *closed {
                Some(trade) => Some(trade@),
                None => None,
            },
        ),
{
    match closed {
        Some(trade) => {
            let mut message = String::from_str("Trade between ");
            push_signed_decimal(&mut message, trade.trader_1.id);
            message.append(" and ");
            push_signed_decimal(&mut message, trade.trader_2.id);
            message.append(" executed successfully");
            ApiResponse { message }
        },
        None => ApiResponse::new("Trade executed successfully"),
    }
}

/// The requests on trades: verb, path below `/trades`, and handler.
pub open spec fn trade_routes() -> Seq<RouteView> {
    seq![
        route(Method::Get, "/", "get_all_trades"),
        route(Method::Get, "/<id>", "get_trade_by_id"),
        route(Method::Post, "/", "create_trade"),
        route(Method::Post, "/<id>/add-item", "add_item_to_trade"),
        route(Method::Delete, "/<id>/remove-item", "remove_item_from_trade"),
        route(Method::Put, "/<id>/accept?<owner_id>", "accept_trade"),
        route(Method::Delete, "/<id>", "cancel_trade"),
    ]
}

/// A layout with the requests on trades mounted after what it had.
pub open spec fn with_trades(mounts: Seq<MountView>) -> Seq<MountView> {
    mounts.push(MountView { base: "/trades"@, routes: trade_routes() })
}

/// What can mount the requests on trades.
pub trait TradeRoutes {
    fn mount_trades(self) -> Self;
}

impl TradeRoutes for Service {
    /// Mounts the requests on trades under `/trades`, after the mounts
    /// that the service already has.
    fn mount_trades(self) -> (service: Service)
        ensures
            service@ == with_trades(self@),
    {
        let mut routes: Vec<Route> = Vec::new();
        routes.push(Route { method: Method::Get, path: "/", handler: "get_all_trades" });
        routes.push(Route { method: Method::Get, path: "/<id>", handler: "get_trade_by_id" });
        routes.push(Route { method: Method::Post, path: "/", handler: "create_trade" });
        routes.push(Route { method: Method::Post, path: "/<id>/add-item", handler: "add_item_to_trade" });
        routes.push(Route { method: Method::Delete, path: "/<id>/remove-item", handler: "remove_item_from_trade" });
        routes.push(Route { method: Method::Put, path: "/<id>/accept?<owner_id>", handler: "accept_trade" });
        routes.push(Route { method: Method::Delete, path: "/<id>", handler: "cancel_trade" });
        assert(Seq::new(routes@.len(), |i: int| routes@[i]@) =~= trade_routes());
        self.mount("/trades", routes)
    }
}

} // verus!
