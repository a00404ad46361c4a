use ventil::db::database::StoreImage;
use ventil::db::entities::owner::Model as OwnerModel;
use ventil::db::entities::possession::Model as PossessionModel;
use ventil::serve::trade::error::{Missing, Refusal, TradeError};
use ventil::serve::trade::logic::Trade;
use ventil::serve::trade::registry::TradeRegistry;
use ventil::serve::trade::validation::{
    distinct_traders, existing_owner, existing_possession, existing_trade, existing_trader,
    owned_by, party_to,
};

fn store() -> StoreImage {
    let mut store = StoreImage::new();
    store.record_owner(OwnerModel { id: 1 });
    store.record_owner(OwnerModel { id: 2 });
    store.record_possession(PossessionModel { id: 10, owner: 1, item: 100 });
    store
}

#[test]
fn owner_existence() {
    let store = store();
    assert_eq!(existing_owner(&store, 1), Ok(OwnerModel { id: 1 }));
    assert_eq!(existing_owner(&store, 3), Err(TradeError::NotFound(Missing::Owner(3))));
}

#[test]
fn trader_existence() {
    let store = store();
    assert_eq!(existing_trader(&store, 2), Ok(OwnerModel { id: 2 }));
    assert_eq!(
        existing_trader(&store, 3),
        Err(TradeError::InvalidRequest(Refusal::UnknownTrader(3)))
    );
}

#[test]
fn possession_existence() {
    let store = store();
    assert_eq!(
        existing_possession(&store, 10),
        Ok(PossessionModel { id: 10, owner: 1, item: 100 })
    );
    assert_eq!(
        existing_possession(&store, 1),
        Err(TradeError::NotFound(Missing::Possession(1)))
    );
}

#[test]
fn trade_existence() {
    let store = store();
    let mut trades = TradeRegistry::new();
    let id = trades.create(1, 2, &store).unwrap();
    assert_eq!(existing_trade(&trades, id).unwrap().id, id);
    assert_eq!(
        existing_trade(&trades, id + 1).unwrap_err(),
        TradeError::NotFound(Missing::Trade(id + 1))
    );
}

#[test]
fn current_ownership() {
    let possession = PossessionModel { id: 10, owner: 1, item: 100 };
    assert_eq!(owned_by(&possession, &OwnerModel { id: 1 }), Ok(()));
    assert_eq!(
        owned_by(&possession, &OwnerModel { id: 2 }),
        Err(TradeError::InvalidRequest(Refusal::OwnershipMismatch))
    );
}

#[test]
fn party_to_the_trade() {
    let trade = Trade::new(1, OwnerModel { id: 1 }, OwnerModel { id: 2 });
    assert_eq!(party_to(&trade, &OwnerModel { id: 1 }), Ok(()));
    assert_eq!(party_to(&trade, &OwnerModel { id: 2 }), Ok(()));
    assert_eq!(
        party_to(&trade, &OwnerModel { id: 3 }),
        Err(TradeError::InvalidRequest(Refusal::TraderNotInTrade))
    );
}

#[test]
fn two_different_traders() {
    assert_eq!(distinct_traders(&OwnerModel { id: 1 }, &OwnerModel { id: 2 }), Ok(()));
    assert_eq!(
        distinct_traders(&OwnerModel { id: 2 }, &OwnerModel { id: 2 }),
        Err(TradeError::InvalidRequest(Refusal::SameTraderTwice))
    );
}
