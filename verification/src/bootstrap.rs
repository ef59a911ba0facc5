//! Finding out ahead of a prefill which worker it goes to and where that worker hands
//! over its results, so that decoding need not wait for the prefill.

use crate::protocol::{BootstrapInfo, PreprocessedRequest, RouterConfigOverride};
use crate::router::{InnerPrefillRouter, PrefillRouter, RouterMode};
use crate::shared::share;
use rand::Rng;
use std::sync::Arc;
use vstd::prelude::*;

verus! {

/// A question for the worker that has most of a prompt in its cache.
#[derive(Debug)]
pub struct BestMatchQuery {
    pub context_id: Option<String>,
    pub token_ids: Arc<Vec<u32>>,
    pub router_config_override: Option<RouterConfigOverride>,
    /// Whether the request is to be counted towards the load of the worker.
    pub update_states: bool,
    pub lora_name: Option<String>,
}

/// How to come by the worker for a prefill.
#[derive(Debug)]
pub enum WorkerChoice<K, S> {
    /// There is no way to tell ahead.
    Unavailable,
    /// It is this worker, at this rank.
    Known { worker_id: u64, dp_rank: u32 },
    /// The router that knows the caches is to find it.
    BestMatch(Arc<K>, BestMatchQuery),
    /// It is the next worker of this router.
    Next(Arc<S>),
}

/// Where a worker can be reached to fetch what it computed, as far as it told.
#[derive(Debug)]
pub struct DisaggregatedEndpoint {
    pub bootstrap_host: Option<String>,
    pub bootstrap_port: Option<u16>,
}

/// The question for the best worker for `request`. Asking leaves the load of the workers as
/// it is.
pub open spec fn query_for<P, T>(request: PreprocessedRequest<P, T>) -> BestMatchQuery {
    BestMatchQuery {
        context_id: None,
        token_ids: request.token_ids,
        router_config_override: None,
        update_states: false,
        lora_name: request.hints().lora_name,
    }
}

/// Where a worker at `endpoint` hands over its results, in the room of this number. A
/// worker that did not tell both its host and its port has no such place.
pub open spec fn meeting_place(endpoint: Option<DisaggregatedEndpoint>, room: u64) -> Option<
    BootstrapInfo,
> {
    match endpoint {
        Some(
            DisaggregatedEndpoint { bootstrap_host: Some(host), bootstrap_port: Some(port) },
        ) => Some(
            BootstrapInfo { bootstrap_host: host, bootstrap_port: port, bootstrap_room: room },
        ),
        _ => None,
    }
}

/// Calls `rand::rng` and, on the generator that it gives, `rand::Rng::random`: some
/// number, for which nothing more can be promised. Both panic where the operating system has
/// no randomness to give: `rand::rng` when it makes the generator of a thread, and
/// `random` when that generator cannot be seeded anew.
#[verifier::external_body]
pub(crate) fn draw_room() -> (room: u64) {
    rand::rng().random()
}

/// Where a worker at `endpoint` hands over its results, in the room of this number, along
/// with the worker and its rank.
pub fn build_bootstrap_info(
    worker_id: u64,
    dp_rank: u32,
    endpoint: Option<DisaggregatedEndpoint>,
    room: u64,
) -> (built: Option<(u64, u32, BootstrapInfo)>)
    ensures
        match meeting_place(endpoint, room) {
            Some(info) => built == Some((worker_id, dp_rank, info)),
            None => built is None,
        },
{
    let endpoint = endpoint?;
    let host = endpoint.bootstrap_host?;
    let port: u16 = endpoint.bootstrap_port?;
    Some(
        (
            worker_id,
            dp_rank,
            BootstrapInfo { bootstrap_host: host, bootstrap_port: port, bootstrap_room: room },
        ),
    )
}

impl<K, S, C> PrefillRouter<K, S, C> {
    /// How to come by the worker for `request`: a worker that was selected before is
    /// taken as it is, at the rank in the hints or rank zero.
    pub open spec fn choice<P, T>(
        self,
        request: PreprocessedRequest<P, T>,
        preselected: Option<u64>,
    ) -> WorkerChoice<K, S> {
        if self.endpoint_id is None || self.prefill_router is None {
            WorkerChoice::Unavailable
        } else if preselected is Some {
            WorkerChoice::Known {
                worker_id: preselected->0,
                dp_rank: match request.hints().dp_rank {
                    Some(rank) => rank,
                    None => 0,
                },
            }
        } else {
            match (self.router_mode, self.prefill_router->0) {
                (RouterMode::KV, InnerPrefillRouter::KvRouter(router)) => WorkerChoice::BestMatch(
                    router,
                    query_for(request),
                ),
                (RouterMode::KV, InnerPrefillRouter::SimpleRouter(_)) => WorkerChoice::Unavailable,
                (_, InnerPrefillRouter::SimpleRouter(router)) => WorkerChoice::Next(router),
                (_, InnerPrefillRouter::KvRouter(_)) => WorkerChoice::Unavailable,
            }
        }
    }

    /// Decides how to come by the worker for `request`. The next worker of a simple router
    /// is only looked at: the router is to move on when the worker is taken, not before.
    pub fn choose_worker<P, T>(
        &self,
        request: &PreprocessedRequest<P, T>,
        preselected_worker: Option<u64>,
    ) -> (choice: WorkerChoice<K, S>)
        ensures
            choice == self.choice(*request, preselected_worker),
    {
        if self.endpoint_id.is_none() {
            return WorkerChoice::Unavailable;
        }
        let prefill_router = match &self.prefill_router {
            Some(router) => router,
            None => {
                return WorkerChoice::Unavailable;
            },
        };
        if let Some(worker_id) = preselected_worker {
            let dp_rank: u32 = match &request.routing {
                Some(hints) => hints.dp_rank.unwrap_or(0),
                None => 0,
            };
            WorkerChoice::Known { worker_id, dp_rank }
        } else if self.router_mode.is_kv_routing() {
            match prefill_router {
                InnerPrefillRouter::KvRouter(router) => {
                    let lora_name = match &request.routing {
                        Some(hints) => hints.lora_name.clone(),
                        None => None,
                    };
                    WorkerChoice::BestMatch(
                        share(router),
                        BestMatchQuery {
                            context_id: None,
                            token_ids: share(&request.token_ids),
                            router_config_override: None,
                            update_states: false,
                            lora_name,
                        },
                    )
                },
                InnerPrefillRouter::SimpleRouter(_) => WorkerChoice::Unavailable,
            }
        } else {
            match prefill_router.peek_next_worker() {
                Some(router) => WorkerChoice::Next(router),
                None => WorkerChoice::Unavailable,
            }
        }
    }
}

} // verus!
