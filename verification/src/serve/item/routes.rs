//! The requests on items: what each one answers, given what the store
//! returned.

use crate::db::entities::item::{ItemView, Model as ItemModel};
pub use crate::serve::response::ApiResponse;
use crate::serve::response::not_found_text;
use crate::serve::serve_main::{route, Method, MountView, Route, RouteView, Service};
use vstd::prelude::*;

verus! {

/// An item as it is reported to a caller.
#[derive(Clone, Debug, PartialEq, Eq)]
pub struct ItemResponse {
    pub item_type: String,
    pub id: i32,
}

/// The request to add an item with the given label.
#[derive(Clone, Debug, PartialEq, Eq)]
pub struct CreateItemRequest {
    pub item_type: String,
}

/// The request to give an item another label.
#[derive(Clone, Debug, PartialEq, Eq)]
pub struct UpdateItemRequest {
    pub item_type: String,
}

impl View for ItemResponse {
    type V = ItemView;

    open spec fn view(&self) -> ItemView {
        ItemView { id: self.id, item_type: self.item_type@ }
    }
}

impl ItemResponse {
    /// The report of one item row.
    pub fn of(item: &ItemModel) -> (response: ItemResponse)
        ensures
            response@ == item@,
    {
        ItemResponse { item_type: item.item_type.clone(), id: item.id }
    }
}

/// The views of a list of item reports, in their order.
pub open spec fn item_views(all: Seq<ItemResponse>) -> Seq<ItemView> {
    Seq::new(all.len(), |i: int| all[i]@)
}

/// The views of a list of item rows, in their order.
pub open spec fn item_rows(items: Seq<ItemModel>) -> Seq<ItemView> {
    Seq::new(items.len(), |i: int| items[i]@)
}

/// The report of every item row that the store returned, in the order in
/// which it returned them.
pub fn get_all_items(items: &Vec<ItemModel>) -> (all: Vec<ItemResponse>)
    ensures
        item_views(all@) == item_rows(items@),
{
    let mut all: Vec<ItemResponse> = Vec::new();
    let mut index: usize = 0;
    while index < items.len()
        invariant
            index <= items.len(),
            all@.len() == index,
            forall|i: int| 0 <= i < index ==> all@[i]@ == items@[i]@,
        decreases items.len() - index,
    {
        all.push(ItemResponse::of(&items[index]));
        index += 1;
    }
    all
}

/// The report of the item that was looked for under `id`, or the answer
/// that there is none.
pub fn get_item_by_id(id: i32, found: Option<ItemModel>) -> (result: Result<
    ItemResponse,
    ApiResponse,
>)
    ensures
        match found {
            Some(item) => result matches Ok(response) && response@ == item@,
            None => result matches Err(answer) && answer.message@ == not_found_text(
                "Item"@,
                id as int,
            ),
        },
{
    match found {
        Some(item) => Ok(ItemResponse::of(&item)),
        None => Err(ApiResponse::not_found("Item", id)),
    }
}

/// The report of an item that has just been added: the label that was
/// asked for, under the id that the store gave the new row.
pub fn create_item(item_data: &CreateItemRequest, inserted: &ItemModel) -> (response: ItemResponse)
    ensures
        response.id == inserted.id,
        response.item_type@ == item_data.item_type@,
{
    ItemResponse { item_type: item_data.item_type.clone(), id: inserted.id }
}

/// The row to save when the item `id` gets another label: the row that was
/// found, with the label of the request. Where no row was found, the answer
/// that there is no such item, and nothing to save.
pub fn update_item(id: i32, item_data: &UpdateItemRequest, found: Option<ItemModel>) -> (result:
    Result<ItemModel, ApiResponse>)
    ensures
        match found {
            Some(item) => result matches Ok(row) && row@ == (ItemView {
                id: item.id,
                item_type: item_data.item_type@,
            }),
            None => result matches Err(answer) && answer.message@ == not_found_text(
                "Item"@,
                id as int,
            ),
        },
{
    match found {
        Some(item) => Ok(ItemModel { id: item.id, item_type: item_data.item_type.clone() }),
        None => Err(ApiResponse::not_found("Item", id)),
    }
}

/// The row to delete when the item `id` is to go: the row that was found.
/// Where no row was found, the answer that there is no such item.
pub fn delete_item(id: i32, found: Option<ItemModel>) -> (result: Result<ItemModel, ApiResponse>)
    ensures
        match found {
            Some(item) => result == Ok::<ItemModel, ApiResponse>(item),
            None => result matches Err(answer) && answer.message@ == not_found_text(
                "Item"@,
                id as int,
            ),
        },
{
    match found {
        Some(item) => Ok(item),
        None => Err(ApiResponse::not_found("Item", id)),
    }
}

/// The requests on items: verb, path below `/items`, and handler.
pub open spec fn item_routes() -> Seq<RouteView> {
    seq![
        route(Method::Get, "/", "get_all_items"),
        route(Method::Get, "/<id>", "get_item_by_id"),
        route(Method::Post, "/", "create_item"),
        route(Method::Put, "/<id>", "update_item"),
        route(Method::Delete, "/<id>", "delete_item"),
    ]
}

/// A layout with the requests on items mounted after what it had.
pub open spec fn with_items(mounts: Seq<MountView>) -> Seq<MountView> {
    mounts.push(MountView { base: "/items"@, routes: item_routes() })
}

/// What can mount the requests on items.
pub trait ItemRoutes {
    fn mount_items(self) -> Self;
}

impl ItemRoutes for Service {
    /// Mounts the requests on items under `/items`, after the mounts
    /// that the service already has.
    fn mount_items(self) -> (service: Service)
        ensures
            service@ == with_items(self@),
    {
        let mut routes: Vec<Route> = Vec::new();
        routes.push(Route { method: Method::Get, path: "/", handler: "get_all_items" });
        routes.push(Route { method: Method::Get, path: "/<id>", handler: "get_item_by_id" });
        routes.push(Route { method: Method::Post, path: "/", handler: "create_item" });
        routes.push(Route { method: Method::Put, path: "/<id>", handler: "update_item" });
        routes.push(Route { method: Method::Delete, path: "/<id>", handler: "delete_item" });
        assert(Seq::new(routes@.len(), |i: int| routes@[i]@) =~= item_routes());
        self.mount("/items", routes)
    }
}

} // verus!
