//! The prefill router and the routers that it can have inside.

use crate::activation::Activation;
use crate::protocol::PreprocessedRequest;
use crate::shared::share;
use std::sync::Arc;
use vstd::prelude::*;

verus! {

/// How a router picks the worker for a request.
#[derive(Debug, Clone, Copy, PartialEq, Eq, Structural)]
pub enum RouterMode {
    RoundRobin,
    Random,
    Direct,
    /// By what the workers have in their key-value caches.
    KV,
}

impl RouterMode {
    /// Whether workers are picked by what they have in their caches.
    pub fn is_kv_routing(&self) -> (kv: bool)
        ensures
            kv == (*self == RouterMode::KV),
    {
        *self == RouterMode::KV
    }
}

/// The name of an endpoint that workers serve.
#[derive(Debug)]
pub struct EndpointId {
    pub namespace: String,
    pub component: String,
    pub name: String,
}

impl Clone for EndpointId {
    fn clone(&self) -> (copy: Self)
        ensures
            copy == *self,
    {
        EndpointId {
            namespace: self.namespace.clone(),
            component: self.component.clone(),
            name: self.name.clone(),
        }
    }
}

/// The router that brings a prefill to a worker: `K` picks the worker by what is
/// cached, `S` in turn, at random or as told.
#[derive(Debug)]
pub enum InnerPrefillRouter<K, S> {
    KvRouter(Arc<K>),
    SimpleRouter(Arc<S>),
}

/// How a prefill request leaves for its worker.
#[derive(Debug)]
pub enum Dispatch<K, S, P, T> {
    /// The cache-aware router picks the worker, or takes the one in the routing hints.
    Kv(Arc<K>, PreprocessedRequest<P, T>),
    /// The simple router sends it to this worker.
    Direct(Arc<S>, PreprocessedRequest<P, T>, u64),
    /// The simple router picks the worker.
    Simple(Arc<S>, PreprocessedRequest<P, T>),
}

impl<K, S> Clone for InnerPrefillRouter<K, S> {
    fn clone(&self) -> (copy: Self)
        ensures
            copy == *self,
    {
        match self {
            InnerPrefillRouter::KvRouter(router) => InnerPrefillRouter::KvRouter(share(router)),
            InnerPrefillRouter::SimpleRouter(router) => InnerPrefillRouter::SimpleRouter(
                share(router),
            ),
        }
    }
}

impl<K, S> InnerPrefillRouter<K, S> {
    /// How `request` leaves for `target_worker`, or for a worker that is yet to be picked.
    pub open spec fn dispatch<P, T>(
        self,
        request: PreprocessedRequest<P, T>,
        target_worker: Option<u64>,
    ) -> Dispatch<K, S, P, T> {
        match (self, target_worker) {
            (InnerPrefillRouter::KvRouter(router), _) => Dispatch::Kv(router, request),
            (InnerPrefillRouter::SimpleRouter(router), Some(worker_id)) => Dispatch::Direct(
                router,
                request,
                worker_id,
            ),
            (InnerPrefillRouter::SimpleRouter(router), None) => Dispatch::Simple(router, request),
        }
    }

    /// The simple router, which alone takes its workers in turn.
    pub open spec fn simple(self) -> Option<Arc<S>> {
        match self {
            InnerPrefillRouter::SimpleRouter(router) => Some(router),
            InnerPrefillRouter::KvRouter(_) => None,
        }
    }

    /// Decides how `request` leaves. The cache-aware router finds the worker in the
    /// request's hints, so it ignores `target_worker`; the simple router goes straight to
    /// it, if there is one.
    pub fn generate_to_worker<P, T>(
        &self,
        request: PreprocessedRequest<P, T>,
        target_worker: Option<u64>,
    ) -> (dispatch: Dispatch<K, S, P, T>)
        ensures
            dispatch == self.dispatch(request, target_worker),
    {
        match (self, target_worker) {
            (InnerPrefillRouter::KvRouter(router), _) => Dispatch::Kv(share(router), request),
            (InnerPrefillRouter::SimpleRouter(router), Some(worker_id)) => Dispatch::Direct(
                share(router),
                request,
                worker_id,
            ),
            (InnerPrefillRouter::SimpleRouter(router), None) => Dispatch::Simple(
                share(router),
                request,
            ),
        }
    }

    /// The router that is to move on to its next worker. Cache-aware routing has no next
    /// worker.
    pub fn select_next_worker(&self) -> (router: Option<Arc<S>>)
        ensures
            router == self.simple(),
    {
        match self {
            InnerPrefillRouter::SimpleRouter(router) => Some(share(router)),
            InnerPrefillRouter::KvRouter(_) => None,
        }
    }

    /// The router that is to tell its next worker, without moving on to it. Cache-aware
    /// routing has no next worker.
    pub fn peek_next_worker(&self) -> (router: Option<Arc<S>>)
        ensures
            router == self.simple(),
    {
        match self {
            InnerPrefillRouter::SimpleRouter(router) => Some(share(router)),
            InnerPrefillRouter::KvRouter(_) => None,
        }
    }
}

/// Sits between the migration of requests and the decode router, and takes requests
/// through a prefill worker first, once one can be reached. It only acts on requests on
/// their way in, never on responses.
///
/// - A request whose hints name a prefill worker goes to that worker.
/// - For any other request the router inside picks the worker.
/// - A request that only asks which workers it would go to says so in an annotation. The
///   annotation stays on the prefill request and on the decode request, for the routers
///   that get them to answer it.
///
/// `C` is the configuration of cache-aware routing.
#[derive(Debug)]
pub struct PrefillRouter<K, S, C> {
    pub prefill_router: Option<InnerPrefillRouter<K, S>>,
    pub endpoint_id: Option<EndpointId>,
    pub activation: Activation<C>,
    pub router_mode: RouterMode,
    pub enforce_disagg: bool,
    /// The model whose worker monitor is to know the client of the prefill workers.
    pub model_name: String,
}

impl<K, S, C> PrefillRouter<K, S, C> {
    /// Whether prefills can be routed.
    pub open spec fn active(self) -> bool {
        self.prefill_router is Some
    }

    /// A router that never becomes active.
    pub fn disabled(router_mode: RouterMode, enforce_disagg: bool) -> (router: Self)
        ensures
            router.wf(),
            router.prefill_router is None,
            router.endpoint_id is None,
            router.activation is Disabled,
            router.router_mode == router_mode,
            router.enforce_disagg == enforce_disagg,
            router.model_name@ == Seq::<char>::empty(),
    {
        PrefillRouter {
            prefill_router: None,
            endpoint_id: None,
            activation: Activation::Disabled,
            router_mode,
            enforce_disagg,
            model_name: String::new(),
        }
    }

    /// A router that waits for the endpoint of the prefill workers to become active.
    pub fn new(
        router_mode: RouterMode,
        kv_cache_block_size: u32,
        kv_router_config: Option<C>,
        enforce_disagg: bool,
        model_name: String,
    ) -> (router: Self)
        ensures
            router.wf(),
            router == (PrefillRouter::<K, S, C> {
                prefill_router: None,
                endpoint_id: None,
                activation: Activation::Waiting { kv_cache_block_size, kv_router_config },
                router_mode,
                enforce_disagg,
                model_name,
            }),
    {
        PrefillRouter {
            prefill_router: None,
            endpoint_id: None,
            activation: Activation::Waiting { kv_cache_block_size, kv_router_config },
            router_mode,
            enforce_disagg,
            model_name,
        }
    }
}

} // verus!
