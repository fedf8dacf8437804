//! Routing a request to the handler registered under its method name.

use vstd::prelude::*;
use crate::registry::{is_offloaded_method, is_registered_method, offloaded_methods, registered_methods};
use crate::request::RpcRequest;

verus! {

/// The handler chosen for a request.
#[derive(Clone, Debug)]
pub struct Route {
    /// The method name, as registered.
    pub method: String,
    /// Whether the handler runs on the background worker pool.
    pub offload: bool,
}

/// Result of `dispatcher`.
#[derive(Debug)]
pub enum DispatcherRes {
    /// A handler is registered for the request's method; the request travels
    /// along for the handler to read.
    Match(Route, RpcRequest),
    /// No handler: the request is handed back, untouched, for a fallback.
    NoMatch(RpcRequest),
}

/// Whether the dispatcher routes a request with this method to a handler.
pub open spec fn routes(method: Option<Seq<char>>) -> bool {
    match method {
        Option::None => false,
        Option::Some(m) => registered_methods().contains(m),
    }
}

/// Resolves the request's method against the registry. A request whose
/// method is absent, not a string or not registered comes back as `NoMatch`.
pub fn dispatcher(req: RpcRequest) -> (r: DispatcherRes)
    ensures
        match r {
            DispatcherRes::Match(route, back) => {
                &&& back == req
                &&& req.method == Option::Some(route.method)
                &&& registered_methods().contains(route.method@)
                &&& route.offload == offloaded_methods().contains(route.method@)
            },
            DispatcherRes::NoMatch(back) => back == req && !routes(crate::registry::opt_text(req.method)),
        },
{
    let found = match &req.method {
        Option::None => false,
        Option::Some(m) => is_registered_method(m),
    };
    if !found {
        return DispatcherRes::NoMatch(req);
    }
    match &req.method {
        Option::Some(m) => {
            let offload = is_offloaded_method(m);
            let route = Route { method: m.clone(), offload };
            DispatcherRes::Match(route, req)
        },
        Option::None => DispatcherRes::NoMatch(req),
    }
}

} // verus!
