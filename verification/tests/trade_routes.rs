use ventil::db::database::StoreImage;
use ventil::db::entities::owner::Model as OwnerModel;
use ventil::db::entities::possession::Model as PossessionModel;
use ventil::serve::trade::error::{Missing, Refusal, StoreError, TradeError};
use ventil::serve::trade::logic::Trade;
use ventil::serve::trade::registry::TradeRegistry;
use ventil::serve::trade::routes::{
    accept_trade, add_item_to_trade, create_trade, executed_response, get_all_trades,
    get_trade_by_id, remove_item_from_trade, status_response, Acceptance, CreateTradeRequest,
    TradeItemRequest, TradeResponse,
};

fn store() -> StoreImage {
    let mut store = StoreImage::new();
    for id in [1, 2, 3] {
        store.record_owner(OwnerModel { id });
    }
    store.record_possession(PossessionModel { id: 10, owner: 1, item: 100 });
    store.record_possession(PossessionModel { id: 20, owner: 2, item: 200 });
    store.record_possession(PossessionModel { id: 30, owner: 3, item: 300 });
    store
}

fn registry_with_one_trade(store: &StoreImage) -> TradeRegistry {
    let mut trades = TradeRegistry::new();
    create_trade(&CreateTradeRequest { trader_1_id: 1, trader_2_id: 2 }, &mut trades, store)
        .unwrap();
    trades
}

fn request(owner_id: i32, item_id: i32) -> TradeItemRequest {
    TradeItemRequest { owner_id, item_id }
}

#[test]
fn create_reports_the_new_trade() {
    let store = store();
    let mut trades = TradeRegistry::new();
    let created =
        create_trade(&CreateTradeRequest { trader_1_id: 2, trader_2_id: 3 }, &mut trades, &store);
    assert_eq!(
        created,
        Ok(TradeResponse {
            id: 1,
            trader_1_id: 2,
            trader_1_items: vec![],
            trader_1_accept: false,
            trader_2_id: 3,
            trader_2_items: vec![],
            trader_2_accept: false,
        })
    );
    assert_eq!(get_trade_by_id(1, &trades), created);
}

#[test]
fn create_is_refused_as_an_invalid_request() {
    let store = store();
    let mut trades = TradeRegistry::new();
    for (first, second, refusal) in [
        (1, 1, Refusal::SameTraderTwice),
        (7, 1, Refusal::UnknownTrader(7)),
        (1, 7, Refusal::UnknownTrader(7)),
    ] {
        let data = CreateTradeRequest { trader_1_id: first, trader_2_id: second };
        assert_eq!(
            create_trade(&data, &mut trades, &store),
            Err(TradeError::InvalidRequest(refusal))
        );
    }
    assert!(get_all_trades(&trades).is_empty());
}

#[test]
fn add_checks_in_order() {
    let store = store();
    let mut trades = registry_with_one_trade(&store);
    // Unknown owner before unknown possession.
    assert_eq!(
        add_item_to_trade(9, &request(8, 77), &mut trades, &store),
        Err(TradeError::NotFound(Missing::Owner(8)))
    );
    // Unknown possession before everything about the trade.
    assert_eq!(
        add_item_to_trade(9, &request(1, 77), &mut trades, &store),
        Err(TradeError::NotFound(Missing::Possession(77)))
    );
    // Ownership before the trade is looked up.
    assert_eq!(
        add_item_to_trade(9, &request(1, 20), &mut trades, &store),
        Err(TradeError::InvalidRequest(Refusal::OwnershipMismatch))
    );
    assert_eq!(
        add_item_to_trade(9, &request(1, 10), &mut trades, &store),
        Err(TradeError::NotFound(Missing::Trade(9)))
    );
    assert_eq!(
        add_item_to_trade(1, &request(3, 30), &mut trades, &store),
        Err(TradeError::InvalidRequest(Refusal::TraderNotInTrade))
    );
    let trade = get_trade_by_id(1, &trades).unwrap();
    assert!(trade.trader_1_items.is_empty() && trade.trader_2_items.is_empty());
}

#[test]
fn add_reports_the_trade_with_the_new_offer() {
    let store = store();
    let mut trades = registry_with_one_trade(&store);
    let first = add_item_to_trade(1, &request(2, 20), &mut trades, &store).unwrap();
    assert_eq!(first.trader_2_items, vec![20]);
    let second = add_item_to_trade(1, &request(2, 20), &mut trades, &store).unwrap();
    assert_eq!(second.trader_2_items, vec![20, 20]);
    assert!(second.trader_1_items.is_empty());
    assert_eq!(get_trade_by_id(1, &trades).unwrap(), second);
}

#[test]
fn remove_checks_the_trade_and_then_the_party() {
    let store = store();
    let mut trades = registry_with_one_trade(&store);
    // A missing trade before a stranger.
    assert_eq!(
        remove_item_from_trade(9, &request(3, 30), &mut trades),
        Err(TradeError::NotFound(Missing::Trade(9)))
    );
    assert_eq!(
        remove_item_from_trade(9, &request(1, 10), &mut trades),
        Err(TradeError::NotFound(Missing::Trade(9)))
    );
    assert_eq!(
        remove_item_from_trade(1, &request(3, 30), &mut trades),
        Err(TradeError::InvalidRequest(Refusal::TraderNotInTrade))
    );
    // An owner that the store has never had is a stranger like any other.
    assert_eq!(
        remove_item_from_trade(1, &request(8, 77), &mut trades),
        Err(TradeError::InvalidRequest(Refusal::TraderNotInTrade))
    );
}

#[test]
fn remove_asks_nothing_of_the_store() {
    let store = store();
    let mut trades = registry_with_one_trade(&store);
    add_item_to_trade(1, &request(1, 10), &mut trades, &store).unwrap();
    // No possession 77 exists: what is not offered is not withdrawn, and
    // that is no failure.
    assert_eq!(remove_item_from_trade(1, &request(1, 77), &mut trades), Ok(None));
    assert_eq!(remove_item_from_trade(1, &request(2, 10), &mut trades), Ok(None));
    let report = remove_item_from_trade(1, &request(1, 10), &mut trades)
        .unwrap()
        .unwrap();
    assert!(report.trader_1_items.is_empty());
}

#[test]
fn remove_keeps_the_order_of_the_other_offers() {
    let mut store = store();
    for id in [11, 12, 13] {
        store.record_possession(PossessionModel { id, owner: 1, item: 100 });
    }
    let mut trades = registry_with_one_trade(&store);
    for id in [10, 11, 12, 11, 13] {
        add_item_to_trade(1, &request(1, id), &mut trades, &store).unwrap();
    }
    let report = remove_item_from_trade(1, &request(1, 11), &mut trades)
        .unwrap()
        .unwrap();
    assert_eq!(report.trader_1_items, vec![10, 12, 11, 13]);
    let report = remove_item_from_trade(1, &request(1, 10), &mut trades)
        .unwrap()
        .unwrap();
    assert_eq!(report.trader_1_items, vec![12, 11, 13]);
    assert!(report.trader_2_items.is_empty());
}

#[test]
fn remove_of_what_is_not_offered_answers_none_and_keeps_the_flags() {
    let store = store();
    let mut trades = registry_with_one_trade(&store);
    add_item_to_trade(1, &request(1, 10), &mut trades, &store).unwrap();
    accept_trade(1, 1, &mut trades, &store).unwrap();
    // Possession 20 exists, but owner 1 has not offered it.
    assert_eq!(remove_item_from_trade(1, &request(1, 20), &mut trades), Ok(None));
    let trade = get_trade_by_id(1, &trades).unwrap();
    assert!(trade.trader_1_accept);
    assert_eq!(trade.trader_1_items, vec![10]);
}

#[test]
fn remove_reports_the_trade_without_the_offer() {
    let store = store();
    let mut trades = registry_with_one_trade(&store);
    add_item_to_trade(1, &request(1, 10), &mut trades, &store).unwrap();
    let report = remove_item_from_trade(1, &request(1, 10), &mut trades)
        .unwrap()
        .unwrap();
    assert!(report.trader_1_items.is_empty());
    assert_eq!(get_trade_by_id(1, &trades).unwrap(), report);
}

#[test]
fn accept_checks_in_order() {
    let store = store();
    let mut trades = registry_with_one_trade(&store);
    assert_eq!(
        accept_trade(9, 8, &mut trades, &store),
        Err(TradeError::NotFound(Missing::Owner(8)))
    );
    assert_eq!(
        accept_trade(9, 1, &mut trades, &store),
        Err(TradeError::NotFound(Missing::Trade(9)))
    );
    assert_eq!(
        accept_trade(1, 3, &mut trades, &store),
        Err(TradeError::InvalidRequest(Refusal::TraderNotInTrade))
    );
    let trade = get_trade_by_id(1, &trades).unwrap();
    assert!(!trade.trader_1_accept && !trade.trader_2_accept);
}

#[test]
fn accept_is_ready_exactly_when_both_flags_are_up() {
    let store = store();
    let mut trades = registry_with_one_trade(&store);
    let first = accept_trade(1, 2, &mut trades, &store).unwrap();
    match first {
        Acceptance::StatusUpdated(trade) => {
            assert!(!trade.trader_1_accept && trade.trader_2_accept)
        }
        Acceptance::ReadyToExecute(_) => panic!("one side has not accepted"),
    }
    let second = accept_trade(1, 1, &mut trades, &store).unwrap();
    match second {
        Acceptance::ReadyToExecute(trade) => {
            assert!(trade.trader_1_accept && trade.trader_2_accept)
        }
        Acceptance::StatusUpdated(_) => panic!("both sides have accepted"),
    }
    // The trade stays until its execution is concluded.
    assert!(get_trade_by_id(1, &trades).is_ok());
}

#[test]
fn get_all_reports_each_trade() {
    let store = store();
    let mut trades = registry_with_one_trade(&store);
    create_trade(&CreateTradeRequest { trader_1_id: 3, trader_2_id: 1 }, &mut trades, &store)
        .unwrap();
    add_item_to_trade(2, &request(3, 30), &mut trades, &store).unwrap();
    let mut all = get_all_trades(&trades);
    all.sort_by_key(|trade| trade.id);
    assert_eq!(all.len(), 2);
    assert_eq!(all[0], get_trade_by_id(1, &trades).unwrap());
    assert_eq!(all[1], get_trade_by_id(2, &trades).unwrap());
    assert_eq!(all[1].trader_1_items, vec![30]);
}

#[test]
fn status_message_names_both_flags() {
    let store = store();
    let mut trades = registry_with_one_trade(&store);
    let report = get_trade_by_id(1, &trades).unwrap();
    assert_eq!(
        status_response(&report).message,
        "Trade acceptance status updated. Trader 1: Not accepted, Trader 2: Not accepted"
    );
    let updated = accept_trade(1, 2, &mut trades, &store).unwrap();
    let report = match updated {
        Acceptance::StatusUpdated(report) => report,
        Acceptance::ReadyToExecute(report) => report,
    };
    assert_eq!(
        status_response(&report).message,
        "Trade acceptance status updated. Trader 1: Not accepted, Trader 2: Accepted"
    );
    accept_trade(1, 1, &mut trades, &store).unwrap();
    let report = get_trade_by_id(1, &trades).unwrap();
    assert_eq!(
        status_response(&report).message,
        "Trade acceptance status updated. Trader 1: Accepted, Trader 2: Accepted"
    );
}

#[test]
fn executed_message_names_both_sides() {
    let trade = Trade::new(4, OwnerModel { id: 12 }, OwnerModel { id: -3 });
    assert_eq!(
        executed_response(&Some(trade)).message,
        "Trade between 12 and -3 executed successfully"
    );
    assert_eq!(executed_response(&None).message, "Trade executed successfully");
}

#[test]
fn every_error_has_its_message() {
    let cases = [
        (TradeError::NotFound(Missing::Owner(5)), "Owner with id 5 not found"),
        (TradeError::NotFound(Missing::Possession(-17)), "Possession with id -17 not found"),
        (
            TradeError::NotFound(Missing::Trade(18446744073709551615)),
            "Trade with id 18446744073709551615 not found",
        ),
        (TradeError::InvalidRequest(Refusal::UnknownTrader(40)), "Trader with id 40 not found"),
        (
            TradeError::InvalidRequest(Refusal::SameTraderTwice),
            "Cannot create trade with same trader on both sides",
        ),
        (
            TradeError::InvalidRequest(Refusal::TraderNotInTrade),
            "Trader is not part of the trade",
        ),
        (
            TradeError::InvalidRequest(Refusal::OwnershipMismatch),
            "Possession does not belong to the owner",
        ),
        (
            TradeError::ExecutionFailure(StoreError { message: String::from("disk full") }),
            "Error executing trade: disk full",
        ),
    ];
    for (error, message) in cases {
        assert_eq!(error.response().message, message);
    }
}

#[test]
fn every_error_has_its_status_code() {
    assert_eq!(TradeError::NotFound(Missing::Owner(1)).status_code(), 404);
    assert_eq!(TradeError::NotFound(Missing::Possession(1)).status_code(), 404);
    assert_eq!(TradeError::NotFound(Missing::Trade(1)).status_code(), 404);
    assert_eq!(TradeError::InvalidRequest(Refusal::UnknownTrader(1)).status_code(), 400);
    assert_eq!(TradeError::InvalidRequest(Refusal::SameTraderTwice).status_code(), 400);
    assert_eq!(TradeError::InvalidRequest(Refusal::TraderNotInTrade).status_code(), 400);
    assert_eq!(TradeError::InvalidRequest(Refusal::OwnershipMismatch).status_code(), 400);
    let failure = StoreError { message: String::from("timeout") };
    assert_eq!(TradeError::ExecutionFailure(failure).status_code(), 500);
}
