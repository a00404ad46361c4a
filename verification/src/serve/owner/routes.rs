//! The requests on owners: what each one answers, given what the store
//! returned.

use crate::db::entities::owner::Model as OwnerModel;
pub use crate::serve::response::ApiResponse;
use crate::serve::response::not_found_text;
use crate::serve::serve_main::{route, Method, MountView, Route, RouteView, Service};
use vstd::prelude::*;

verus! {

/// An owner as it is reported to a caller.
#[derive(Clone, Copy, Debug, PartialEq, Eq, Structural)]
pub struct OwnerResponse {
    pub id: i32,
}

/// The request to add an owner. It carries nothing: an owner is its id, and
/// the store gives the id.
#[derive(Clone, Copy, Debug, PartialEq, Eq, Structural)]
pub struct CreateOwnerRequest {}

/// The ids of a list of owner reports, in their order.
pub open spec fn reported_ids(all: Seq<OwnerResponse>) -> Seq<i32> {
    Seq::new(all.len(), |i: int| all[i].id)
}

/// The ids of a list of owner rows, in their order.
pub open spec fn row_ids(owners: Seq<OwnerModel>) -> Seq<i32> {
    Seq::new(owners.len(), |i: int| owners[i].id)
}

/// The report of every owner row that the store returned, in the order in
/// which it returned them.
pub fn get_all_owners(owners: &Vec<OwnerModel>) -> (all: Vec<OwnerResponse>)
    ensures
        reported_ids(all@) == row_ids(owners@),
{
    let mut all: Vec<OwnerResponse> = Vec::new();
    let mut index: usize = 0;
    while index < owners.len()
        invariant
            index <= owners.len(),
            all@.len() == index,
            forall|i: int| 0 <= i < index ==> all@[i].id == owners@[i].id,
        decreases owners.len() - index,
    {
        all.push(OwnerResponse { id: owners[index].id });
        index += 1;
    }
    all
}

/// The report of the owner that was looked for under `id`, or the answer
/// that there is none.
pub fn get_owner_by_id(id: i32, found: Option<OwnerModel>) -> (result: Result<
    OwnerResponse,
    ApiResponse,
>)
    ensures
        match found {
            Some(owner) => result == Ok::<OwnerResponse, ApiResponse>(
                OwnerResponse { id: owner.id },
            ),
            None => result matches Err(answer) && answer.message@ == not_found_text(
                "Owner"@,
                id as int,
            ),
        },
{
    match found {
        Some(owner) => Ok(OwnerResponse { id: owner.id }),
        None => Err(ApiResponse::not_found("Owner", id)),
    }
}

/// The report of an owner that has just been added, under the id that the
/// store gave the new row.
pub fn create_owner(_owner_data: &CreateOwnerRequest, inserted: &OwnerModel) -> (response:
    OwnerResponse)
    ensures
        response.id == inserted.id,
{
    OwnerResponse { id: inserted.id }
}

/// The row to delete when the owner `id` is to go: the row that was found.
/// Where no row was found, the answer that there is no such owner.
pub fn delete_owner(id: i32, found: Option<OwnerModel>) -> (result: Result<
    OwnerModel,
    ApiResponse,
>)
    ensures
        match found {
            Some(owner) => result == Ok::<OwnerModel, ApiResponse>(owner),
            None => result matches Err(answer) && answer.message@ == not_found_text(
                "Owner"@,
                id as int,
            ),
        },
{
    match found {
        Some(owner) => Ok(owner),
        None => Err(ApiResponse::not_found("Owner", id)),
    }
}

/// The requests on owners: verb, path below `/owners`, and handler.
pub open spec fn owner_routes() -> Seq<RouteView> {
    seq![
        route(Method::Get, "/", "get_all_owners"),
        route(Method::Get, "/<id>", "get_owner_by_id"),
        route(Method::Post, "/", "create_owner"),
        route(Method::Delete, "/<id>", "delete_owner"),
    ]
}

/// A layout with the requests on owners mounted after what it had.
pub open spec fn with_owners(mounts: Seq<MountView>) -> Seq<MountView> {
    mounts.push(MountView { base: "/owners"@, routes: owner_routes() })
}

/// What can mount the requests on owners.
pub trait OwnerRoutes {
    fn mount_owners(self) -> Self;
}

impl OwnerRoutes for Service {
    /// Mounts the requests on owners under `/owners`, after the mounts
    /// that the service already has.
    fn mount_owners(self) -> (service: Service)
        ensures
            service@ == with_owners(self@),
    {
        let mut routes: Vec<Route> = Vec::new();
        routes.push(Route { method: Method::Get, path: "/", handler: "get_all_owners" });
        routes.push(Route { method: Method::Get, path: "/<id>", handler: "get_owner_by_id" });
        routes.push(Route { method: Method::Post, path: "/", handler: "create_owner" });
        routes.push(Route { method: Method::Delete, path: "/<id>", handler: "delete_owner" });
        assert(Seq::new(routes@.len(), |i: int| routes@[i]@) =~= owner_routes());
        self.mount("/owners", routes)
    }
}

} // verus!
