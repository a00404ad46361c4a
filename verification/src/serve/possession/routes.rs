//! The requests on possessions: what each one answers, given what the store
//! returned.

use crate::db::entities::item::Model as ItemModel;
use crate::db::entities::owner::Model as OwnerModel;
use crate::db::entities::possession::Model as PossessionModel;
pub use crate::serve::response::ApiResponse;
use crate::serve::response::not_found_text;
use crate::serve::serve_main::{route, Method, MountView, Route, RouteView, Service};
use vstd::prelude::*;

verus! {

/// A possession as it is reported to a caller, with the label of its item
/// where the store has that item.
#[derive(Clone, Debug, PartialEq, Eq)]
pub struct PossessionResponse {
    pub id: i32,
    pub owner_id: i32,
    pub item_id: i32,
    pub item_type: Option<String>,
}

/// The request to give an owner a possession of an item.
#[derive(Clone, Copy, Debug, PartialEq, Eq, Structural)]
pub struct CreatePossessionRequest {
    pub owner_id: i32,
    pub item_id: i32,
}

/// The request to bind a possession to another owner and item.
#[derive(Clone, Copy, Debug, PartialEq, Eq, Structural)]
pub struct UpdatePossessionRequest {
    pub owner_id: i32,
    pub item_id: i32,
}

/// The mathematical content of a [`PossessionResponse`].
pub struct PossessionReport {
    pub id: i32,
    pub owner_id: i32,
    pub item_id: i32,
    pub item_type: Option<Seq<char>>,
}

impl View for PossessionResponse {
    type V = PossessionReport;

    open spec fn view(&self) -> PossessionReport {
        PossessionReport {
            id: self.id,
            owner_id: self.owner_id,
            item_id: self.item_id,
            item_type: match self.item_type {
                Some(label) => Some(label@),
                None => None,
            },
        }
    }
}

/// The label of the first of the items that the store related to a
/// possession, if it related any.
pub open spec fn first_label(items: Seq<ItemModel>) -> Option<Seq<char>> {
    if items.len() > 0 {
        Some(items[0].item_type@)
    } else {
        None
    }
}

/// The report of a possession row with the given label.
pub open spec fn report(possession: PossessionModel, label: Option<Seq<char>>) -> PossessionReport {
    PossessionReport {
        id: possession.id,
        owner_id: possession.owner,
        item_id: possession.item,
        item_type: label,
    }
}

/// The reports of possession rows, each with the items related to it, in
/// their order.
pub open spec fn reports_with_items(rows: Seq<(PossessionModel, Vec<ItemModel>)>) -> Seq<
    PossessionReport,
> {
    Seq::new(rows.len(), |i: int| report(rows[i].0, first_label(rows[i].1@)))
}

/// The reports of possession rows that all bind the item with the given
/// label, in their order.
pub open spec fn reports_of_item(rows: Seq<PossessionModel>, label: Seq<char>) -> Seq<
    PossessionReport,
> {
    Seq::new(rows.len(), |i: int| report(rows[i], Some(label)))
}

/// The views of a list of possession reports, in their order.
pub open spec fn possession_views(all: Seq<PossessionResponse>) -> Seq<PossessionReport> {
    Seq::new(all.len(), |i: int| all[i]@)
}

impl PossessionResponse {
    /// The report of one possession row, with the label of the first of the
    /// items that the store related to it.
    pub fn of(possession: &PossessionModel, items: &Vec<ItemModel>) -> (response:
        PossessionResponse)
        ensures
            response@ == report(*possession, first_label(items@)),
    {
        let item_type = if items.len() > 0 {
            Some(items[0].item_type.clone())
        } else {
            None
        };
        PossessionResponse {
            id: possession.id,
            owner_id: possession.owner,
            item_id: possession.item,
            item_type,
        }
    }

    /// The report of one possession row whose item is known.
    pub fn with_item(possession: &PossessionModel, item: &ItemModel) -> (response:
        PossessionResponse)
        ensures
            response@ == report(*possession, Some(item.item_type@)),
    {
        PossessionResponse {
            id: possession.id,
            owner_id: possession.owner,
            item_id: possession.item,
            item_type: Some(item.item_type.clone()),
        }
    }
}

/// The report of every possession row that the store returned, each with
/// the label of its item, in the order in which the store returned them.
pub fn get_all_possessions(possessions: &Vec<(PossessionModel, Vec<ItemModel>)>) -> (all: Vec<
    PossessionResponse,
>)
    ensures
        possession_views(all@) == reports_with_items(possessions@),
{
    let mut all: Vec<PossessionResponse> = Vec::new();
    let mut index: usize = 0;
    while index < possessions.len()
        invariant
            index <= possessions.len(),
            all@.len() == index,
            forall|i: int|
                0 <= i < index ==> all@[i]@ == report(
                    possessions@[i].0,
                    first_label(possessions@[i].1@),
                ),
        decreases possessions.len() - index,
    {
        let row = &possessions[index];
        all.push(PossessionResponse::of(&row.0, &row.1));
        index += 1;
    }
    all
}

/// The report of the possession that was looked for under `id`: the first
/// of the rows that the store returned, with the label of its item. Where
/// the store returned no row, the answer that there is no such possession.
pub fn get_possession_by_id(id: i32, results: &Vec<(PossessionModel, Vec<ItemModel>)>) -> (result:
    Result<PossessionResponse, ApiResponse>)
    ensures
        if results@.len() > 0 {
            result matches Ok(response) && response@ == report(
                results@[0].0,
                first_label(results@[0].1@),
            )
        } else {
            result matches Err(answer) && answer.message@ == not_found_text(
                "Possession"@,
                id as int,
            )
        },
{
    if results.len() > 0 {
        let row = &results[0];
        Ok(PossessionResponse::of(&row.0, &row.1))
    } else {
        Err(ApiResponse::not_found("Possession", id))
    }
}

/// Whether a possession may bind the owner and the item that a request
/// names: the item that the store found, or the answer that names the first
/// of the two that it did not find, the owner before the item.
pub fn check_binding(
    owner_id: i32,
    item_id: i32,
    owner: Option<OwnerModel>,
    item: Option<ItemModel>,
) -> (result: Result<ItemModel, ApiResponse>)
    ensures
        match (owner, item) {
            (None, _) => result matches Err(answer) && answer.message@ == not_found_text(
                "Owner"@,
                owner_id as int,
            ),
            (Some(_), None) => result matches Err(answer) && answer.message@ == not_found_text(
                "Item"@,
                item_id as int,
            ),
            (Some(_), Some(found)) => result == Ok::<ItemModel, ApiResponse>(found),
        },
{
    if owner.is_none() {
        return Err(ApiResponse::not_found("Owner", owner_id));
    }
    match item {
        None => Err(ApiResponse::not_found("Item", item_id)),
        Some(found) => Ok(found),
    }
}

/// Decides on the request to give an owner a possession of an item, given
/// what the store found under the two ids.
///
/// Where both exist, the answer is the item, whose label the report of the
/// new possession will carry; the row to insert binds the owner and the
/// item of the request. Otherwise the answer names the first of the two
/// that is missing, the owner before the item, and nothing is to be
/// inserted.
pub fn create_possession(
    possession_data: &CreatePossessionRequest,
    owner: Option<OwnerModel>,
    item: Option<ItemModel>,
) -> (result: Result<ItemModel, ApiResponse>)
    ensures
        match (owner, item) {
            (None, _) => result matches Err(answer) && answer.message@ == not_found_text(
                "Owner"@,
                possession_data.owner_id as int,
            ),
            (Some(_), None) => result matches Err(answer) && answer.message@ == not_found_text(
                "Item"@,
                possession_data.item_id as int,
            ),
            (Some(_), Some(found)) => result == Ok::<ItemModel, ApiResponse>(found),
        },
{
    check_binding(possession_data.owner_id, possession_data.item_id, owner, item)
}

/// Decides on the request to bind the possession `id` to another owner and
/// item, given what the store found under the three ids.
///
/// Where all three exist, the answer is the row to save, which keeps its id
/// and binds the owner and the item of the request, and the item, whose
/// label the report will carry. Otherwise the answer names the first that is
/// missing: the owner, then the item, then the possession.
pub fn update_possession(
    id: i32,
    possession_data: &UpdatePossessionRequest,
    owner: Option<OwnerModel>,
    item: Option<ItemModel>,
    found: Option<PossessionModel>,
) -> (result: Result<(PossessionModel, ItemModel), ApiResponse>)
    ensures
        match (owner, item, found) {
            (None, _, _) => result matches Err(answer) && answer.message@ == not_found_text(
                "Owner"@,
                possession_data.owner_id as int,
            ),
            (Some(_), None, _) => result matches Err(answer) && answer.message@ == not_found_text(
                "Item"@,
                possession_data.item_id as int,
            ),
            (Some(_), Some(_), None) => result matches Err(answer) && answer.message@
                == not_found_text("Possession"@, id as int),
            (Some(_), Some(label), Some(row)) => result == Ok::<
                (PossessionModel, ItemModel),
                ApiResponse,
            >(
                (
                    PossessionModel {
                        id: row.id,
                        owner: possession_data.owner_id,
                        item: possession_data.item_id,
                    },
                    label,
                ),
            ),
        },
{
    let label = match check_binding(possession_data.owner_id, possession_data.item_id, owner, item) {
        Ok(label) => label,
        Err(answer) => {
            return Err(answer);
        },
    };
    match found {
        Some(row) => Ok(
            (
                PossessionModel {
                    id: row.id,
                    owner: possession_data.owner_id,
                    item: possession_data.item_id,
                },
                label,
            ),
        ),
        None => Err(ApiResponse::not_found("Possession", id)),
    }
}

/// The row to delete when the possession `id` is to go: the row that was
/// found. Where no row was found, the answer that there is no such
/// possession.
pub fn delete_possession(id: i32, found: Option<PossessionModel>) -> (result: Result<
    PossessionModel,
    ApiResponse,
>)
    ensures
        match found {
            Some(row) => result == Ok::<PossessionModel, ApiResponse>(row),
            None => result matches Err(answer) && answer.message@ == not_found_text(
                "Possession"@,
                id as int,
            ),
        },
{
    match found {
        Some(row) => Ok(row),
        None => Err(ApiResponse::not_found("Possession", id)),
    }
}

/// The possessions of one owner: where the store knows the owner, the
/// report of every row that it returned for it, each with the label of its
/// item, in the order of the rows; else the answer that there is no such
/// owner.
pub fn get_possessions_by_owner(
    owner_id: i32,
    owner: Option<OwnerModel>,
    possessions: &Vec<(PossessionModel, Vec<ItemModel>)>,
) -> (result: Result<Vec<PossessionResponse>, ApiResponse>)
    ensures
        match owner {
            Some(_) => result matches Ok(all) && possession_views(all@) == reports_with_items(
                possessions@,
            ),
            None => result matches Err(answer) && answer.message@ == not_found_text(
                "Owner"@,
                owner_id as int,
            ),
        },
{
    if owner.is_none() {
        return Err(ApiResponse::not_found("Owner", owner_id));
    }
    Ok(get_all_possessions(possessions))
}

/// The possessions of one item: where the store knows the item, the report
/// of every row that it returned for it, each with the label of that item,
/// in the order of the rows; else the answer that there is no such item.
pub fn get_possessions_by_item(
    item_id: i32,
    item: Option<ItemModel>,
    possessions: &Vec<PossessionModel>,
) -> (result: Result<Vec<PossessionResponse>, ApiResponse>)
    ensures
        match item {
            Some(found) => result matches Ok(all) && possession_views(all@) == reports_of_item(
                possessions@,
                found.item_type@,
            ),
            None => result matches Err(answer) && answer.message@ == not_found_text(
                "Item"@,
                item_id as int,
            ),
        },
{
    let found = match item {
        Some(found) => found,
        None => {
            return Err(ApiResponse::not_found("Item", item_id));
        },
    };
    let mut all: Vec<PossessionResponse> = Vec::new();
    let mut index: usize = 0;
    while index < possessions.len()
        invariant
            index <= possessions.len(),
            all@.len() == index,
            forall|i: int|
                0 <= i < index ==> all@[i]@ == report(possessions@[i], Some(found.item_type@)),
        decreases possessions.len() - index,
    {
        all.push(PossessionResponse::with_item(&possessions[index], &found));
        index += 1;
    }
    Ok(all)
}

/// The requests on possessions: verb, path below `/possessions`, and handler.
pub open spec fn possession_routes() -> Seq<RouteView> {
    seq![
        route(Method::Get, "/", "get_all_possessions"),
        route(Method::Get, "/<id>", "get_possession_by_id"),
        route(Method::Post, "/", "create_possession"),
        route(Method::Put, "/<id>", "update_possession"),
        route(Method::Delete, "/<id>", "delete_possession"),
        route(Method::Get, "/owner/<owner_id>", "get_possessions_by_owner"),
        route(Method::Get, "/item/<item_id>", "get_possessions_by_item"),
    ]
}

/// A layout with the requests on possessions mounted after what it had.
pub open spec fn with_possessions(mounts: Seq<MountView>) -> Seq<MountView> {
    mounts.push(MountView { base: "/possessions"@, routes: possession_routes() })
}

/// What can mount the requests on possessions.
pub trait PossessionRoutes {
    fn mount_possessions(self) -> Self;
}

impl PossessionRoutes for Service {
    /// Mounts the requests on possessions under `/possessions`, after the mounts
    /// that the service already has.
    fn mount_possessions(self) -> (service: Service)
        ensures
            service@ == with_possessions(self@),
    {
        let mut routes: Vec<Route> = Vec::new();
        routes.push(Route { method: Method::Get, path: "/", handler: "get_all_possessions" });
        routes.push(Route { method: Method::Get, path: "/<id>", handler: "get_possession_by_id" });
        routes.push(Route { method: Method::Post, path: "/", handler: "create_possession" });
        routes.push(Route { method: Method::Put, path: "/<id>", handler: "update_possession" });
        routes.push(Route { method: Method::Delete, path: "/<id>", handler: "delete_possession" });
        routes.push(Route { method: Method::Get, path: "/owner/<owner_id>", handler: "get_possessions_by_owner" });
        routes.push(Route { method: Method::Get, path: "/item/<item_id>", handler: "get_possessions_by_item" });
        assert(Seq::new(routes@.len(), |i: int| routes@[i]@) =~= possession_routes());
        self.mount("/possessions", routes)
    }
}

} // verus!
