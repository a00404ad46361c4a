use ventil::db::database::StoreImage;
use ventil::db::entities::owner::Model as OwnerModel;
use ventil::db::entities::possession::Model as PossessionModel;

#[test]
fn empty_image_finds_nothing() {
    let store = StoreImage::new();
    assert_eq!(store.find_owner_by_id(1), None);
    assert_eq!(store.find_possession_by_id(1), None);
}

#[test]
fn recorded_rows_are_found_under_their_ids() {
    let mut store = StoreImage::new();
    store.record_owner(OwnerModel { id: 3 });
    store.record_possession(PossessionModel { id: 10, owner: 3, item: 5 });
    assert_eq!(store.find_owner_by_id(3), Some(OwnerModel { id: 3 }));
    assert_eq!(store.find_owner_by_id(10), None);
    assert_eq!(
        store.find_possession_by_id(10),
        Some(PossessionModel { id: 10, owner: 3, item: 5 })
    );
    assert_eq!(store.find_possession_by_id(3), None);
}

#[test]
fn a_later_row_replaces_the_earlier_one_with_its_id() {
    let mut store = StoreImage::new();
    store.record_possession(PossessionModel { id: 10, owner: 3, item: 5 });
    store.record_possession(PossessionModel { id: 10, owner: 4, item: 6 });
    assert_eq!(
        store.find_possession_by_id(10),
        Some(PossessionModel { id: 10, owner: 4, item: 6 })
    );
}

#[test]
fn update_changes_the_owner_and_nothing_else() {
    let mut store = StoreImage::new();
    store.record_possession(PossessionModel { id: 10, owner: 3, item: 5 });
    store.record_possession(PossessionModel { id: 11, owner: 3, item: 6 });
    assert!(store.update_possession_owner(10, 4));
    assert_eq!(
        store.find_possession_by_id(10),
        Some(PossessionModel { id: 10, owner: 4, item: 5 })
    );
    assert_eq!(
        store.find_possession_by_id(11),
        Some(PossessionModel { id: 11, owner: 3, item: 6 })
    );
}

#[test]
fn update_of_a_missing_possession_changes_nothing() {
    let mut store = StoreImage::new();
    store.record_possession(PossessionModel { id: 10, owner: 3, item: 5 });
    assert!(!store.update_possession_owner(12, 4));
    assert_eq!(store.find_possession_by_id(12), None);
    assert_eq!(
        store.find_possession_by_id(10),
        Some(PossessionModel { id: 10, owner: 3, item: 5 })
    );
}

#[test]
fn forgotten_possession_is_gone() {
    let mut store = StoreImage::new();
    store.record_possession(PossessionModel { id: 10, owner: 3, item: 5 });
    store.forget_possession(10);
    store.forget_possession(11);
    assert_eq!(store.find_possession_by_id(10), None);
}
