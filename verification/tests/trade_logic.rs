use ventil::db::entities::owner::Model as OwnerModel;
use ventil::db::entities::possession::Model as PossessionModel;
use ventil::serve::trade::logic::{first_position, Trade, TradeLogic, TradeOperation};

fn owner(id: i32) -> OwnerModel {
    OwnerModel { id }
}

fn possession(id: i32, owner: i32) -> PossessionModel {
    PossessionModel { id, owner, item: 1000 + id }
}

fn trade_between(first: i32, second: i32) -> Trade {
    Trade::new(7, owner(first), owner(second))
}

#[test]
fn new_trade_is_empty_and_unaccepted() {
    let trade = trade_between(1, 2);
    assert_eq!(trade.id, 7);
    assert_eq!(trade.trader_1, owner(1));
    assert_eq!(trade.trader_2, owner(2));
    assert!(trade.trade_1_items.is_empty());
    assert!(trade.trade_2_items.is_empty());
    assert!(!trade.trade_1_accept);
    assert!(!trade.trade_2_accept);
}

#[test]
fn add_goes_to_the_list_of_the_acting_side() {
    let mut trade = trade_between(1, 2);
    assert!(trade.add_to_trade(&owner(1), &possession(10, 1)));
    assert!(trade.add_to_trade(&owner(2), &possession(20, 2)));
    assert!(trade.add_to_trade(&owner(1), &possession(11, 1)));
    assert_eq!(trade.trade_1_items, vec![10, 11]);
    assert_eq!(trade.trade_2_items, vec![20]);
}

#[test]
fn add_keeps_duplicates() {
    let mut trade = trade_between(1, 2);
    assert!(trade.add_to_trade(&owner(1), &possession(10, 1)));
    assert!(trade.add_to_trade(&owner(1), &possession(10, 1)));
    assert_eq!(trade.trade_1_items, vec![10, 10]);
}

#[test]
fn add_resets_both_flags_whatever_they_were() {
    for (first, second) in [(false, false), (true, false), (false, true), (true, true)] {
        let mut trade = trade_between(1, 2);
        trade.trade_1_accept = first;
        trade.trade_2_accept = second;
        assert!(trade.add_to_trade(&owner(2), &possession(20, 2)));
        assert!(!trade.trade_1_accept);
        assert!(!trade.trade_2_accept);
    }
}

#[test]
fn add_by_a_stranger_changes_nothing() {
    let mut trade = trade_between(1, 2);
    trade.add_to_trade(&owner(1), &possession(10, 1));
    trade.trade_1_accept = true;
    trade.trade_2_accept = true;
    assert!(!trade.add_to_trade(&owner(3), &possession(30, 3)));
    assert_eq!(trade.trade_1_items, vec![10]);
    assert!(trade.trade_2_items.is_empty());
    assert!(trade.trade_1_accept);
    assert!(trade.trade_2_accept);
}

#[test]
fn add_of_a_possession_of_somebody_else_changes_nothing() {
    let mut trade = trade_between(1, 2);
    trade.trade_1_accept = true;
    assert!(!trade.add_to_trade(&owner(1), &possession(20, 2)));
    assert!(trade.trade_1_items.is_empty());
    assert!(trade.trade_2_items.is_empty());
    assert!(trade.trade_1_accept);
}

#[test]
fn remove_takes_the_first_match_and_keeps_the_order_of_the_rest() {
    let mut trade = trade_between(1, 2);
    for id in [10, 11, 10, 12] {
        trade.add_to_trade(&owner(1), &possession(id, 1));
    }
    assert!(trade.remove_from_trade(&owner(1), &possession(10, 1)));
    assert_eq!(trade.trade_1_items, vec![11, 10, 12]);
    assert!(trade.remove_from_trade(&owner(1), &possession(10, 1)));
    assert_eq!(trade.trade_1_items, vec![11, 12]);
    assert!(!trade.remove_from_trade(&owner(1), &possession(10, 1)));
    assert_eq!(trade.trade_1_items, vec![11, 12]);
}

#[test]
fn remove_from_the_front_the_middle_and_the_end() {
    let mut trade = trade_between(1, 2);
    for id in [10, 20, 30] {
        trade.add_to_trade(&owner(1), &possession(id, 1));
    }
    assert!(trade.remove_from_trade(&owner(1), &possession(10, 1)));
    assert_eq!(trade.trade_1_items, vec![20, 30]);
    assert!(trade.trade_2_items.is_empty());

    let mut trade = trade_between(1, 2);
    for id in [10, 20, 30] {
        trade.add_to_trade(&owner(2), &possession(id, 2));
    }
    assert!(trade.remove_from_trade(&owner(2), &possession(20, 2)));
    assert_eq!(trade.trade_2_items, vec![10, 30]);
    assert!(trade.remove_from_trade(&owner(2), &possession(30, 2)));
    assert_eq!(trade.trade_2_items, vec![10]);
}

#[test]
fn remove_does_not_ask_who_holds_the_possession_now() {
    let mut trade = trade_between(1, 2);
    trade.add_to_trade(&owner(1), &possession(10, 1));
    // The possession has passed to somebody else since it was offered.
    assert!(trade.remove_from_trade(&owner(1), &possession(10, 7)));
    assert!(trade.trade_1_items.is_empty());
}

#[test]
fn withdraw_goes_by_the_ids_alone() {
    let mut trade = trade_between(1, 2);
    for id in [10, 20, 10] {
        trade.add_to_trade(&owner(1), &possession(id, 1));
    }
    trade.trade_1_accept = true;
    trade.trade_2_accept = true;
    assert!(!trade.withdraw(2, 10));
    assert!(!trade.withdraw(3, 10));
    assert!(!trade.withdraw(1, 30));
    assert!(trade.trade_1_accept && trade.trade_2_accept);
    assert!(trade.withdraw(1, 10));
    assert_eq!(trade.trade_1_items, vec![20, 10]);
    assert!(!trade.trade_1_accept && !trade.trade_2_accept);
}

#[test]
fn remove_of_the_only_offer_empties_the_list() {
    let mut trade = trade_between(1, 2);
    trade.add_to_trade(&owner(2), &possession(20, 2));
    assert!(trade.remove_from_trade(&owner(2), &possession(20, 2)));
    assert!(trade.trade_2_items.is_empty());
}

#[test]
fn remove_resets_both_flags_whatever_they_were() {
    for (first, second) in [(false, false), (true, false), (false, true), (true, true)] {
        let mut trade = trade_between(1, 2);
        trade.add_to_trade(&owner(1), &possession(10, 1));
        trade.trade_1_accept = first;
        trade.trade_2_accept = second;
        assert!(trade.remove_from_trade(&owner(1), &possession(10, 1)));
        assert!(!trade.trade_1_accept);
        assert!(!trade.trade_2_accept);
    }
}

#[test]
fn remove_of_what_is_not_offered_keeps_the_flags() {
    let mut trade = trade_between(1, 2);
    trade.add_to_trade(&owner(1), &possession(10, 1));
    trade.trade_1_accept = true;
    trade.trade_2_accept = true;
    assert!(!trade.remove_from_trade(&owner(1), &possession(99, 1)));
    // What the other side offers is not the acting side's to withdraw.
    assert!(!trade.remove_from_trade(&owner(2), &possession(10, 1)));
    assert!(!trade.remove_from_trade(&owner(3), &possession(10, 1)));
    assert_eq!(trade.trade_1_items, vec![10]);
    assert!(trade.trade_1_accept);
    assert!(trade.trade_2_accept);
}

#[test]
fn toggle_flips_the_own_flag_only() {
    let mut trade = trade_between(1, 2);
    assert!(trade.change_trade_status(&owner(1)));
    assert!(trade.trade_1_accept);
    assert!(!trade.trade_2_accept);
    assert!(trade.change_trade_status(&owner(2)));
    assert!(trade.trade_1_accept);
    assert!(trade.trade_2_accept);
    assert!(trade.change_trade_status(&owner(1)));
    assert!(!trade.trade_1_accept);
    assert!(trade.trade_2_accept);
}

#[test]
fn toggle_by_a_stranger_fails_and_changes_nothing() {
    let mut trade = trade_between(1, 2);
    trade.add_to_trade(&owner(1), &possession(10, 1));
    trade.trade_2_accept = true;
    assert!(!trade.change_trade_status(&owner(3)));
    assert!(!trade.trade_1_accept);
    assert!(trade.trade_2_accept);
    assert_eq!(trade.trade_1_items, vec![10]);
    assert!(trade.trade_2_items.is_empty());
    assert_eq!((trade.id, trade.trader_1, trade.trader_2), (7, owner(1), owner(2)));
}

#[test]
fn apply_answers_whether_the_move_took_effect() {
    let mut trade = trade_between(1, 2);
    assert!(trade.apply(TradeOperation::AddItem { owner: owner(1), item: possession(10, 1) }));
    assert!(!trade.apply(TradeOperation::AddItem { owner: owner(3), item: possession(30, 3) }));
    assert!(trade.apply(TradeOperation::ToggleAccept { owner: owner(2) }));
    assert!(!trade.apply(TradeOperation::ToggleAccept { owner: owner(3) }));
    assert!(trade.trade_2_accept);
    assert!(!trade.apply(TradeOperation::RemoveItem { owner: owner(2), item_id: 10 }));
    assert!(trade.trade_2_accept);
    assert!(trade.apply(TradeOperation::RemoveItem { owner: owner(1), item_id: 10 }));
    assert!(!trade.trade_2_accept);
    assert!(trade.trade_1_items.is_empty());
}

#[test]
fn first_position_finds_the_earliest_index() {
    assert_eq!(first_position(&vec![], 1), None);
    assert_eq!(first_position(&vec![5, 6, 5], 5), Some(0));
    assert_eq!(first_position(&vec![5, 6, 5, 6], 6), Some(1));
    assert_eq!(first_position(&vec![5, 6, 7], 7), Some(2));
    assert_eq!(first_position(&vec![5, 6, 7], 8), None);
}
