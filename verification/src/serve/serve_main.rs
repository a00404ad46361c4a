//! The layout of the service: which groups of requests it answers, under
//! which paths.

use crate::serve::item::routes::ItemRoutes;
use crate::serve::owner::routes::OwnerRoutes;
use crate::serve::possession::routes::PossessionRoutes;
use crate::serve::trade::routes::TradeRoutes;
use vstd::prelude::*;

verus! {

/// The verb of a request.
#[derive(Clone, Copy, Debug, PartialEq, Eq, Structural)]
pub enum Method {
    Get,
    Post,
    Put,
    Delete,
}

/// One kind of request: its verb, its path below the base of its group, and
/// the name of the function that answers it.
#[derive(Clone, Copy, Debug, PartialEq, Eq)]
pub struct Route {
    pub method: Method,
    pub path: &'static str,
    pub handler: &'static str,
}

/// A group of routes under one base path.
#[derive(Clone, Debug, PartialEq, Eq)]
pub struct Mount {
    pub base: &'static str,
    pub routes: Vec<Route>,
}

/// The service as laid out so far: its mounts, in the order in which they
/// were made.
#[derive(Clone, Debug, PartialEq, Eq)]
pub struct Service {
    pub mounts: Vec<Mount>,
}

/// The mathematical content of a [`Route`].
pub struct RouteView {
    pub method: Method,
    pub path: Seq<char>,
    pub handler: Seq<char>,
}

/// The mathematical content of a [`Mount`].
pub struct MountView {
    pub base: Seq<char>,
    pub routes: Seq<RouteView>,
}

impl View for Route {
    type V = RouteView;

    open spec fn view(&self) -> RouteView {
        RouteView { method: self.method, path: self.path@, handler: self.handler@ }
    }
}

impl View for Mount {
    type V = MountView;

    open spec fn view(&self) -> MountView {
        MountView {
            base: self.base@,
            routes: Seq::new(self.routes@.len(), |i: int| self.routes@[i]@),
        }
    }
}

impl View for Service {
    type V = Seq<MountView>;

    open spec fn view(&self) -> Seq<MountView> {
        Seq::new(self.mounts@.len(), |i: int| self.mounts@[i]@)
    }
}

/// The route with this verb, path and handler.
pub open spec fn route(method: Method, path: &str, handler: &str) -> RouteView {
    RouteView { method, path: path@, handler: handler@ }
}

/// The root of the service: one route, which greets.
pub open spec fn index_routes() -> Seq<RouteView> {
    seq![route(Method::Get, "/", "index")]
}

impl Service {
    /// A service that answers nothing yet.
    pub fn build() -> (service: Service)
        ensures
            service@ == Seq::<MountView>::empty(),
    {
        let service = Service { mounts: Vec::new() };
        service
    }

    /// The service with one more group of routes, under `base`.
    pub fn mount(self, base: &'static str, routes: Vec<Route>) -> (service: Service)
        ensures
            service@ == self@.push(
                MountView {
                    base: base@,
                    routes: Seq::new(routes@.len(), |i: int| routes@[i]@),
                },
            ),
    {
        let mut mounts = self.mounts;
        mounts.push(Mount { base, routes });
        let service = Service { mounts };
        service
    }
}

/// The greeting of the root route.
pub fn index() -> (greeting: &'static str)
    ensures
        greeting@ == "Hello, traders!"@,
{
    "Hello, traders!"
}

/// The whole service: the root, then the items, the owners, the
/// possessions and the trades, each group under its own base path.
pub fn rocket() -> (service: Service)
    ensures
        service@ == crate::serve::trade::routes::with_trades(
            crate::serve::possession::routes::with_possessions(
                crate::serve::owner::routes::with_owners(
                    crate::serve::item::routes::with_items(
                        seq![MountView { base: "/"@, routes: index_routes() }],
                    ),
                ),
            ),
        ),
{
    let mut root: Vec<Route> = Vec::new();
    root.push(Route { method: Method::Get, path: "/", handler: "index" });
    assert(Seq::new(root@.len(), |i: int| root@[i]@) =~= index_routes());
    let service = Service::build().mount("/", root);
    service.mount_items().mount_owners().mount_possessions().mount_trades()
}

} // verus!
