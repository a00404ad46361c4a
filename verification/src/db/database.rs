//! An image of the persistent store: the rows that a request has read from
//! it, held by their primary keys.

use crate::db::entities::owner::Model as OwnerModel;
use crate::db::entities::possession::Model as PossessionModel;
use std::collections::HashMap;
use vstd::prelude::*;

verus! {

broadcast use vstd::std_specs::hash::group_hash_axioms;

/// The rows of the `owner` and `possession` tables that are known, each
/// under its own id.
pub struct StoreImage {
    owners: HashMap<i32, OwnerModel>,
    possessions: HashMap<i32, PossessionModel>,
}

/// The mathematical content of a [`StoreImage`].
pub struct StoreView {
    pub owners: Map<i32, OwnerModel>,
    pub possessions: Map<i32, PossessionModel>,
}

impl StoreView {
    /// Every row stands under its own id.
    pub open spec fn well_formed(self) -> bool {
        &&& forall|id: i32| #[trigger] self.owners.contains_key(id) ==> self.owners[id].id == id
        &&& forall|id: i32| #[trigger]
            self.possessions.contains_key(id) ==> self.possessions[id].id == id
    }

    /// The owner with this id, if the store has one.
    pub open spec fn owner(self, id: i32) -> Option<OwnerModel> {
        if self.owners.contains_key(id) {
            Some(self.owners[id])
        } else {
            None
        }
    }

    /// The possession with this id, if the store has one.
    pub open spec fn possession(self, id: i32) -> Option<PossessionModel> {
        if self.possessions.contains_key(id) {
            Some(self.possessions[id])
        } else {
            None
        }
    }

    /// The store after the possession `id` has passed to `new_owner`; the
    /// store itself where there is no such possession.
    pub open spec fn with_possession_owner(self, id: i32, new_owner: i32) -> StoreView {
        if self.possessions.contains_key(id) {
            StoreView {
                possessions: self.possessions.insert(
                    id,
                    PossessionModel { owner: new_owner, ..self.possessions[id] },
                ),
                ..self
            }
        } else {
            self
        }
    }
}

impl View for StoreImage {
    type V = StoreView;

    closed spec fn view(&self) -> StoreView {
        StoreView { owners: self.owners@, possessions: self.possessions@ }
    }
}

impl StoreImage {
    /// An image with no rows.
    pub fn new() -> (store: Self)
        ensures
            store@.owners == Map::<i32, OwnerModel>::empty(),
            store@.possessions == Map::<i32, PossessionModel>::empty(),
            store@.well_formed(),
    {
        StoreImage { owners: HashMap::new(), possessions: HashMap::new() }
    }

    /// Takes an owner row into the image, in place of any row with its id.
    pub fn record_owner(&mut self, owner: OwnerModel)
        requires
            old(self)@.well_formed(),
        ensures
            final(self)@.owners == old(self)@.owners.insert(owner.id, owner),
            final(self)@.possessions == old(self)@.possessions,
            final(self)@.well_formed(),
    {
        self.owners.insert(owner.id, owner);
    }

    /// Takes a possession row into the image, in place of any row with its id.
    pub fn record_possession(&mut self, possession: PossessionModel)
        requires
            old(self)@.well_formed(),
        ensures
            final(self)@.possessions == old(self)@.possessions.insert(possession.id, possession),
            final(self)@.owners == old(self)@.owners,
            final(self)@.well_formed(),
    {
        self.possessions.insert(possession.id, possession);
    }

    /// Drops the possession row with this id, if there is one.
    pub fn forget_possession(&mut self, id: i32)
        requires
            old(self)@.well_formed(),
        ensures
            final(self)@.possessions == old(self)@.possessions.remove(id),
            final(self)@.owners == old(self)@.owners,
            final(self)@.well_formed(),
    {
        self.possessions.remove(&id);
    }

    /// The owner with this id, if the image has one.
    pub fn find_owner_by_id(&self, id: i32) -> (found: Option<OwnerModel>)
        ensures
            found == self@.owner(id),
    {
        match self.owners.get(&id) {
            Some(owner) => Some(*owner),
            None => None,
        }
    }

    /// The possession with this id, if the image has one.
    pub fn find_possession_by_id(&self, id: i32) -> (found: Option<PossessionModel>)
        ensures
            found == self@.possession(id),
    {
        match self.possessions.get(&id) {
            Some(possession) => Some(*possession),
            None => None,
        }
    }

    /// Hands the possession `id` to `new_owner`. Says whether there was such
    /// a possession; where there was none, nothing changes.
    pub fn update_possession_owner(&mut self, id: i32, new_owner: i32) -> (updated: bool)
        requires
            old(self)@.well_formed(),
        ensures
            updated == old(self)@.possessions.contains_key(id),
            final(self)@ == old(self)@.with_possession_owner(id, new_owner),
            final(self)@.well_formed(),
    {
        match self.find_possession_by_id(id) {
            Some(possession) => {
                self.possessions.insert(
                    id,
                    PossessionModel { id: possession.id, owner: new_owner, item: possession.item },
                );
                true
            },
            None => false,
        }
    }
}

} // verus!
