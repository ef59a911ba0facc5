//! The way of one request through the prefill router to decoding.
//!
//! The steps that reach outside are actions for the caller to perform. It answers each
//! with an event.

use crate::bootstrap::{
    build_bootstrap_info, draw_room, meeting_place, BestMatchQuery, DisaggregatedEndpoint, WorkerChoice,
};
use crate::error::{GenerateError, PrefillError};
use crate::execution::{PrefillExecution, Prefilled};
use crate::protocol::{BootstrapInfo, PrefillResult, PreprocessedRequest, RequestPhase};
use crate::router::{Dispatch, EndpointId, InnerPrefillRouter, PrefillRouter, RouterMode};
use crate::shared::share;
use std::sync::Arc;
use vstd::prelude::*;

verus! {

/// A prefill to be executed, in a context of its own that has the id of the request that
/// it is for and ends with the context of that request. It goes to `target_worker`, if
/// there is one.
#[derive(Debug)]
pub struct PrefillJob<P, T> {
    pub request_id: String,
    pub request: PreprocessedRequest<P, T>,
    pub target_worker: Option<u64>,
}

/// What the prefill stage gives to decoding.
#[derive(Debug)]
pub struct PrefillRouting {
    /// What the prefill gave, if it was waited for.
    pub result: Option<PrefillResult>,
    /// The worker of the prefill, if it is known.
    pub worker_id: Option<u64>,
    /// Where the prefill gives its results, if it was not waited for.
    pub bootstrap_info: Option<BootstrapInfo>,
}

/// How far a request has come.
#[derive(Debug)]
pub enum GenerationStage<P, T> {
    /// A tracker is being made for the request.
    NeedingTracker { request: PreprocessedRequest<P, T> },
    /// The request is entering the prefill phase, which gives a permit.
    EnteringPrefill { request: PreprocessedRequest<P, T> },
    /// The worker with the best match is being looked for.
    Matching { request: PreprocessedRequest<P, T>, prefill: PreprocessedRequest<P, T> },
    /// The next worker in turn is being looked at.
    Peeking { request: PreprocessedRequest<P, T>, prefill: PreprocessedRequest<P, T> },
    /// The endpoint of the worker is being looked up.
    Locating {
        request: PreprocessedRequest<P, T>,
        prefill: PreprocessedRequest<P, T>,
        worker_id: u64,
        dp_rank: u32,
    },
    /// The router is moving on to its next worker.
    Advancing { request: PreprocessedRequest<P, T>, job: PrefillJob<P, T>, info: BootstrapInfo },
    /// The prefill is being started, with the permit, for nobody to wait for.
    Spawning { request: PreprocessedRequest<P, T>, routing: PrefillRouting },
    /// The permit is being released.
    Releasing { request: PreprocessedRequest<P, T>, prefill: PreprocessedRequest<P, T> },
    /// The prefill is being waited for.
    Prefilling { request: PreprocessedRequest<P, T> },
    /// It is being asked whether the request is still wanted.
    Checking {
        request: PreprocessedRequest<P, T>,
        outcome: Result<PrefillRouting, PrefillError>,
    },
    /// The request is entering the decode phase.
    EnteringDecode { request: PreprocessedRequest<P, T>, routing: PrefillRouting },
    /// The request has left.
    Finished,
}

/// What has happened.
#[derive(Debug)]
pub enum GenerationEvent<T> {
    /// The tracker is there.
    TrackerCreated(Arc<T>),
    /// The request is in the phase that it was to enter.
    PhaseEntered,
    /// The best worker and its rank, if one was found.
    BestMatchFound(Option<(u64, u32)>),
    /// The next worker in turn, if there is one.
    NextWorkerPeeked(Option<u64>),
    /// The endpoint of the worker, if it is known.
    EndpointFound(Option<DisaggregatedEndpoint>),
    /// The router has moved on.
    WorkerSelected,
    /// The prefill has been started.
    PrefillSpawned,
    /// The permit is gone.
    PermitReleased,
    /// The prefill is over.
    PrefillFinished(Result<Prefilled, PrefillError>),
    /// Whether the request was stopped, and whether it was killed.
    ContextChecked { stopped: bool, killed: bool },
}

/// What is to be done next.
#[derive(Debug)]
pub enum GenerationAction<K, S, P, T> {
    /// Make a tracker for the request.
    CreateTracker,
    /// Enter a phase. The permit for the prefill phase is to be kept, that for the decode
    /// phase is not.
    EnterPhase(Arc<T>, RequestPhase),
    /// Ask the router for the best worker.
    FindBestMatch(Arc<K>, BestMatchQuery),
    /// Ask the router for its next worker, without moving on.
    PeekNextWorker(Arc<S>),
    /// Look up the endpoint of this worker.
    FindEndpoint { endpoint_id: EndpointId, worker_id: u64 },
    /// Let the router move on to its next worker.
    SelectNextWorker(Arc<S>),
    /// Start the prefill, with the permit, and do not wait for it.
    SpawnPrefill(PrefillJob<P, T>),
    /// Release the permit.
    ReleasePermit,
    /// Run the prefill and wait for it.
    CallPrefill(PrefillJob<P, T>),
    /// Ask whether the request was stopped or killed.
    CheckContext,
    /// Hand the request on to decoding. This is the last action.
    Forward(PreprocessedRequest<P, T>),
    /// Refuse the request. This is the last action.
    Fail(GenerateError),
}

/// A request on its way.
#[derive(Debug)]
pub struct Generation<P, T> {
    pub request_id: String,
    /// The limit on tokens that the request came with.
    pub max_tokens: Option<u32>,
    pub stage: GenerationStage<P, T>,
}

/// What the prefill stage gives to decoding after a prefill that was waited for.
pub open spec fn waited_for(result: Result<Prefilled, PrefillError>) -> Result<
    PrefillRouting,
    PrefillError,
> {
    match result {
        Ok((prefill_result, worker)) => Ok(
            PrefillRouting {
                result: Some(prefill_result),
                worker_id: match worker {
                    Some((worker_id, _)) => Some(worker_id),
                    None => None,
                },
                bootstrap_info: None,
            },
        ),
        Err(error) => Err(error),
    }
}

impl<P, T> Generation<P, T> {
    /// `self` at another stage.
    pub open spec fn at(self, stage: GenerationStage<P, T>) -> Self {
        Generation { stage, ..self }
    }

    /// The start of the way of `request`, and the first action.
    pub open spec fn started<K, S, C>(
        router: PrefillRouter<K, S, C>,
        request_id: String,
        request: PreprocessedRequest<P, T>,
    ) -> (Self, GenerationAction<K, S, P, T>) {
        let start = Generation {
            request_id,
            max_tokens: request.stop_conditions.max_tokens,
            stage: GenerationStage::Finished,
        };
        if !router.active() {
            if router.enforce_disagg {
                (start, GenerationAction::Fail(GenerateError::Prefill(PrefillError::NotActivated)))
            } else {
                (start, GenerationAction::Forward(request))
            }
        } else {
            match request.tracker {
                Some(tracker) => (
                    start.at(GenerationStage::EnteringPrefill { request }),
                    GenerationAction::EnterPhase(tracker, RequestPhase::Prefill),
                ),
                None => (
                    start.at(GenerationStage::NeedingTracker { request }),
                    GenerationAction::CreateTracker,
                ),
            }
        }
    }

    /// Nothing could be found out ahead of the prefill: the request is to wait for it.
    pub open spec fn waiting<K, S>(
        self,
        request: PreprocessedRequest<P, T>,
        prefill: PreprocessedRequest<P, T>,
    ) -> (Self, Option<GenerationAction<K, S, P, T>>) {
        (
            self.at(GenerationStage::Releasing { request, prefill }),
            Some(GenerationAction::ReleasePermit),
        )
    }

    /// The worker of the prefill is known: where can it be reached?
    pub open spec fn locating<K, S, C>(
        self,
        router: PrefillRouter<K, S, C>,
        request: PreprocessedRequest<P, T>,
        prefill: PreprocessedRequest<P, T>,
        worker_id: u64,
        dp_rank: u32,
    ) -> (Self, Option<GenerationAction<K, S, P, T>>) {
        match router.endpoint_id {
            Some(endpoint_id) => (
                self.at(GenerationStage::Locating { request, prefill, worker_id, dp_rank }),
                Some(GenerationAction::FindEndpoint { endpoint_id, worker_id }),
            ),
            None => self.waiting(request, prefill),
        }
    }

    /// The request is in the prefill phase: which worker is its prefill to go to?
    pub open spec fn choosing<K, S, C>(
        self,
        router: PrefillRouter<K, S, C>,
        request: PreprocessedRequest<P, T>,
    ) -> (Self, Option<GenerationAction<K, S, P, T>>) {
        let prefill = request.as_prefill();
        match router.choice(prefill, prefill.hints().prefill_worker_id) {
            WorkerChoice::Unavailable => self.waiting(request, prefill),
            WorkerChoice::Known { worker_id, dp_rank } => self.locating(
                router,
                request,
                prefill,
                worker_id,
                dp_rank,
            ),
            WorkerChoice::BestMatch(kv_router, query) => (
                self.at(GenerationStage::Matching { request, prefill }),
                Some(GenerationAction::FindBestMatch(kv_router, query)),
            ),
            WorkerChoice::Next(simple_router) => (
                self.at(GenerationStage::Peeking { request, prefill }),
                Some(GenerationAction::PeekNextWorker(simple_router)),
            ),
        }
    }

    /// The prefill is to be started, for nobody to wait for.
    pub open spec fn spawning<K, S>(
        self,
        request: PreprocessedRequest<P, T>,
        job: PrefillJob<P, T>,
        info: BootstrapInfo,
    ) -> (Self, Option<GenerationAction<K, S, P, T>>) {
        let routing = PrefillRouting {
            result: None,
            worker_id: job.target_worker,
            bootstrap_info: Some(info),
        };
        (
            self.at(GenerationStage::Spawning { request, routing }),
            Some(GenerationAction::SpawnPrefill(job)),
        )
    }

    /// It is known where the worker hands over its results: the prefill is to be started,
    /// after the router has moved on from that worker if it takes its workers in turn.
    pub open spec fn taking<K, S, C>(
        self,
        router: PrefillRouter<K, S, C>,
        request: PreprocessedRequest<P, T>,
        prefill: PreprocessedRequest<P, T>,
        worker_id: u64,
        dp_rank: u32,
        info: BootstrapInfo,
    ) -> (Self, Option<GenerationAction<K, S, P, T>>) {
        let job = PrefillJob {
            request_id: self.request_id,
            request: prefill.bootstrapped(worker_id, dp_rank, info),
            target_worker: Some(worker_id),
        };
        if router.router_mode != RouterMode::KV && router.active()
            && router.prefill_router->0.simple() is Some {
            (
                self.at(GenerationStage::Advancing { request, job, info }),
                Some(GenerationAction::SelectNextWorker(router.prefill_router->0.simple()->0)),
            )
        } else {
            self.spawning(request, job, info)
        }
    }

    /// The prefill stage is over, and the request is still wanted: on to decoding, or not.
    pub open spec fn deciding<K, S, C>(
        self,
        router: PrefillRouter<K, S, C>,
        request: PreprocessedRequest<P, T>,
        outcome: Result<PrefillRouting, PrefillError>,
    ) -> (Self, Option<GenerationAction<K, S, P, T>>) {
        match outcome {
            Ok(routing) => match request.tracker {
                Some(tracker) => (
                    self.at(GenerationStage::EnteringDecode { request, routing }),
                    Some(GenerationAction::EnterPhase(tracker, RequestPhase::Decode)),
                ),
                None => self.decoding(request, routing),
            },
            Err(error) => if router.enforce_disagg {
                (
                    self.at(GenerationStage::Finished),
                    Some(GenerationAction::Fail(GenerateError::Prefill(error))),
                )
            } else {
                (self.at(GenerationStage::Finished), Some(GenerationAction::Forward(request)))
            },
        }
    }

    /// The request leaves for decoding.
    pub open spec fn decoding<K, S>(
        self,
        request: PreprocessedRequest<P, T>,
        routing: PrefillRouting,
    ) -> (Self, Option<GenerationAction<K, S, P, T>>) {
        let decode = request.as_decode(self.max_tokens, routing.result, routing.bootstrap_info);
        (self.at(GenerationStage::Finished), Some(GenerationAction::Forward(decode)))
    }

    /// `self` after `event`, and the next action. An event that answers nothing that was
    /// asked for changes nothing, and no action follows. `room` is the number of the room
    /// that a prefill worker and a decode worker meet in.
    pub open spec fn after_event<K, S, C>(
        self,
        router: PrefillRouter<K, S, C>,
        event: GenerationEvent<T>,
        room: u64,
    ) -> (Self, Option<GenerationAction<K, S, P, T>>) {
        match (self.stage, event) {
            (
                GenerationStage::NeedingTracker { request },
                GenerationEvent::TrackerCreated(tracker),
            ) => (
                self.at(
                    GenerationStage::EnteringPrefill {
                        request: PreprocessedRequest { tracker: Some(tracker), ..request },
                    },
                ),
                Some(GenerationAction::EnterPhase(tracker, RequestPhase::Prefill)),
            ),
            (GenerationStage::EnteringPrefill { request }, GenerationEvent::PhaseEntered) =>
            self.choosing(router, request),
            (
                GenerationStage::Matching { request, prefill },
                GenerationEvent::BestMatchFound(found),
            ) => match found {
                Some((worker_id, dp_rank)) => self.locating(
                    router,
                    request,
                    prefill,
                    worker_id,
                    dp_rank,
                ),
                None => self.waiting(request, prefill),
            },
            (
                GenerationStage::Peeking { request, prefill },
                GenerationEvent::NextWorkerPeeked(found),
            ) => match found {
                Some(worker_id) => self.locating(router, request, prefill, worker_id, 0),
                None => self.waiting(request, prefill),
            },
            (
                GenerationStage::Locating { request, prefill, worker_id, dp_rank },
                GenerationEvent::EndpointFound(endpoint),
            ) => match meeting_place(endpoint, room) {
                Some(info) => self.taking(router, request, prefill, worker_id, dp_rank, info),
                None => self.waiting(request, prefill),
            },
            (
                GenerationStage::Advancing { request, job, info },
                GenerationEvent::WorkerSelected,
            ) => self.spawning(request, job, info),
            (
                GenerationStage::Spawning { request, routing },
                GenerationEvent::PrefillSpawned,
            ) => (
                self.at(GenerationStage::Checking { request, outcome: Ok(routing) }),
                Some(GenerationAction::CheckContext),
            ),
            (GenerationStage::Releasing { request, prefill }, GenerationEvent::PermitReleased) => (
                self.at(GenerationStage::Prefilling { request }),
                Some(
                    GenerationAction::CallPrefill(
                        PrefillJob {
                            request_id: self.request_id,
                            request: prefill,
                            target_worker: prefill.hints().prefill_worker_id,
                        },
                    ),
                ),
            ),
            (GenerationStage::Prefilling { request }, GenerationEvent::PrefillFinished(result)) => (
                self.at(GenerationStage::Checking { request, outcome: waited_for(result) }),
                Some(GenerationAction::CheckContext),
            ),
            (
                GenerationStage::Checking { request, outcome },
                GenerationEvent::ContextChecked { stopped, killed },
            ) => if stopped || killed {
                (
                    self.at(GenerationStage::Finished),
                    Some(GenerationAction::Fail(GenerateError::Interrupted(self.request_id))),
                )
            } else {
                self.deciding(router, request, outcome)
            },
            (
                GenerationStage::EnteringDecode { request, routing },
                GenerationEvent::PhaseEntered,
            ) => self.decoding(request, routing),
            _ => (self, None),
        }
    }

    /// Whether `event` tells where the worker can be reached for its results.
    pub open spec fn reaches_worker(self, event: GenerationEvent<T>) -> bool {
        &&& self.stage is Locating
        &&& event matches GenerationEvent::EndpointFound(endpoint)
        &&& meeting_place(endpoint, 0) is Some
    }

    fn needs_room(&self, event: &GenerationEvent<T>) -> (needed: bool)
        ensures
            needed == self.reaches_worker(*event),
    {
        match (&self.stage, event) {
            (
                GenerationStage::Locating { .. },
                GenerationEvent::EndpointFound(Some(endpoint)),
            ) => endpoint.bootstrap_host.is_some() && endpoint.bootstrap_port.is_some(),
            _ => false,
        }
    }

    fn wait_for_prefill<K, S>(
        self,
        request: PreprocessedRequest<P, T>,
        prefill: PreprocessedRequest<P, T>,
    ) -> (next: (Self, Option<GenerationAction<K, S, P, T>>))
        ensures
            next == self.waiting::<K, S>(request, prefill),
    {
        (
            Generation { stage: GenerationStage::Releasing { request, prefill }, ..self },
            Some(GenerationAction::ReleasePermit),
        )
    }

    fn locate<K, S, C>(
        self,
        router: &PrefillRouter<K, S, C>,
        request: PreprocessedRequest<P, T>,
        prefill: PreprocessedRequest<P, T>,
        worker_id: u64,
        dp_rank: u32,
    ) -> (next: (Self, Option<GenerationAction<K, S, P, T>>))
        ensures
            next == self.locating(*router, request, prefill, worker_id, dp_rank),
    {
        match &router.endpoint_id {
            Some(endpoint_id) => (
                Generation {
                    stage: GenerationStage::Locating { request, prefill, worker_id, dp_rank },
                    ..self
                },
                Some(
                    GenerationAction::FindEndpoint { endpoint_id: endpoint_id.clone(), worker_id },
                ),
            ),
            None => self.wait_for_prefill(request, prefill),
        }
    }

    fn pick_worker<K, S, C>(
        self,
        router: &PrefillRouter<K, S, C>,
        request: PreprocessedRequest<P, T>,
    ) -> (next: (Self, Option<GenerationAction<K, S, P, T>>))
        ensures
            next == self.choosing(*router, request),
    {
        let prefill = request.prefill_request();
        let preselected_worker = prefill.preselected_worker();
        match router.choose_worker(&prefill, preselected_worker) {
            WorkerChoice::Unavailable => self.wait_for_prefill(request, prefill),
            WorkerChoice::Known { worker_id, dp_rank } => self.locate(
                router,
                request,
                prefill,
                worker_id,
                dp_rank,
            ),
            WorkerChoice::BestMatch(kv_router, query) => (
                Generation { stage: GenerationStage::Matching { request, prefill }, ..self },
                Some(GenerationAction::FindBestMatch(kv_router, query)),
            ),
            WorkerChoice::Next(simple_router) => (
                Generation { stage: GenerationStage::Peeking { request, prefill }, ..self },
                Some(GenerationAction::PeekNextWorker(simple_router)),
            ),
        }
    }

    fn spawn<K, S>(
        self,
        request: PreprocessedRequest<P, T>,
        job: PrefillJob<P, T>,
        info: BootstrapInfo,
    ) -> (next: (Self, Option<GenerationAction<K, S, P, T>>))
        ensures
            next == self.spawning::<K, S>(request, job, info),
    {
        let routing = PrefillRouting {
            result: None,
            worker_id: job.target_worker,
            bootstrap_info: Some(info),
        };
        (
            Generation { stage: GenerationStage::Spawning { request, routing }, ..self },
            Some(GenerationAction::SpawnPrefill(job)),
        )
    }

    fn take<K, S, C>(
        self,
        router: &PrefillRouter<K, S, C>,
        request: PreprocessedRequest<P, T>,
        prefill: PreprocessedRequest<P, T>,
        worker_id: u64,
        dp_rank: u32,
        info: BootstrapInfo,
    ) -> (next: (Self, Option<GenerationAction<K, S, P, T>>))
        ensures
            next == self.taking(*router, request, prefill, worker_id, dp_rank, info),
    {
        let job = PrefillJob {
            request_id: self.request_id.clone(),
            request: prefill.with_bootstrap(worker_id, dp_rank, info.clone()),
            target_worker: Some(worker_id),
        };
        if !router.router_mode.is_kv_routing() {
            if let Some(prefill_router) = &router.prefill_router {
                if let Some(simple_router) = prefill_router.select_next_worker() {
                    return (
                        Generation {
                            stage: GenerationStage::Advancing { request, job, info },
                            ..self
                        },
                        Some(GenerationAction::SelectNextWorker(simple_router)),
                    );
                }
            }
        }
        self.spawn(request, job, info)
    }

    fn decode<K, S>(
        self,
        request: PreprocessedRequest<P, T>,
        routing: PrefillRouting,
    ) -> (next: (Self, Option<GenerationAction<K, S, P, T>>))
        ensures
            next == self.decoding::<K, S>(request, routing),
    {
        let decode = request.decode_request(
            self.max_tokens,
            routing.result,
            routing.bootstrap_info,
        );
        (
            Generation { stage: GenerationStage::Finished, ..self },
            Some(GenerationAction::Forward(decode)),
        )
    }

    fn decide<K, S, C>(
        self,
        router: &PrefillRouter<K, S, C>,
        request: PreprocessedRequest<P, T>,
        outcome: Result<PrefillRouting, PrefillError>,
    ) -> (next: (Self, Option<GenerationAction<K, S, P, T>>))
        ensures
            next == self.deciding(*router, request, outcome),
    {
        match outcome {
            Ok(routing) => {
                let tracker = match &request.tracker {
                    Some(tracker) => share(tracker),
                    None => {
                        return self.decode(request, routing);
                    },
                };
                (
                    Generation {
                        stage: GenerationStage::EnteringDecode { request, routing },
                        ..self
                    },
                    Some(GenerationAction::EnterPhase(tracker, RequestPhase::Decode)),
                )
            },
            Err(error) => {
                let last = if router.enforce_disagg {
                    GenerationAction::Fail(GenerateError::Prefill(error))
                } else {
                    GenerationAction::Forward(request)
                };
                (Generation { stage: GenerationStage::Finished, ..self }, Some(last))
            },
        }
    }

    /// Goes on with the request after `event`, with `room` as the number of the room that a
    /// prefill worker and a decode worker meet in: says what is to be done next, or nothing
    /// where `event` answers nothing that was asked for.
    pub fn step_with_room<K, S, C>(
        self,
        router: &PrefillRouter<K, S, C>,
        event: GenerationEvent<T>,
        room: u64,
    ) -> (next: (Self, Option<GenerationAction<K, S, P, T>>))
        ensures
            next == self.after_event(*router, event, room),
    {
        let Generation { request_id, max_tokens, stage } = self;
        let base = Generation { request_id, max_tokens, stage: GenerationStage::Finished };
        match (stage, event) {
            (
                GenerationStage::NeedingTracker { request },
                GenerationEvent::TrackerCreated(tracker),
            ) => {
                let shared = share(&tracker);
                let request = PreprocessedRequest { tracker: Some(tracker), ..request };
                (
                    Generation { stage: GenerationStage::EnteringPrefill { request }, ..base },
                    Some(GenerationAction::EnterPhase(shared, RequestPhase::Prefill)),
                )
            },
            (GenerationStage::EnteringPrefill { request }, GenerationEvent::PhaseEntered) =>
            base.pick_worker(router, request),
            (
                GenerationStage::Matching { request, prefill },
                GenerationEvent::BestMatchFound(found),
            ) => match found {
                Some((worker_id, dp_rank)) => base.locate(
                    router,
                    request,
                    prefill,
                    worker_id,
                    dp_rank,
                ),
                None => base.wait_for_prefill(request, prefill),
            },
            (
                GenerationStage::Peeking { request, prefill },
                GenerationEvent::NextWorkerPeeked(found),
            ) => match found {
                Some(worker_id) => base.locate(router, request, prefill, worker_id, 0),
                None => base.wait_for_prefill(request, prefill),
            },
            (
                GenerationStage::Locating { request, prefill, worker_id, dp_rank },
                GenerationEvent::EndpointFound(endpoint),
            ) => match build_bootstrap_info(worker_id, dp_rank, endpoint, room) {
                Some((worker_id, dp_rank, info)) => base.take(
                    router,
                    request,
                    prefill,
                    worker_id,
                    dp_rank,
                    info,
                ),
                None => base.wait_for_prefill(request, prefill),
            },
            (
                GenerationStage::Advancing { request, job, info },
                GenerationEvent::WorkerSelected,
            ) => base.spawn(request, job, info),
            (
                GenerationStage::Spawning { request, routing },
                GenerationEvent::PrefillSpawned,
            ) => (
                Generation {
                    stage: GenerationStage::Checking { request, outcome: Ok(routing) },
                    ..base
                },
                Some(GenerationAction::CheckContext),
            ),
            (GenerationStage::Releasing { request, prefill }, GenerationEvent::PermitReleased) => {
                let named_worker = prefill.preselected_worker();
                let job = PrefillJob {
                    request_id: base.request_id.clone(),
                    request: prefill,
                    target_worker: named_worker,
                };
                (
                    Generation { stage: GenerationStage::Prefilling { request }, ..base },
                    Some(GenerationAction::CallPrefill(job)),
                )
            },
            (GenerationStage::Prefilling { request }, GenerationEvent::PrefillFinished(result)) => {
                let outcome = match result {
                    Ok((prefill_result, worker)) => Ok(
                        PrefillRouting {
                            result: Some(prefill_result),
                            worker_id: match worker {
                                Some((worker_id, _)) => Some(worker_id),
                                None => None,
                            },
                            bootstrap_info: None,
                        },
                    ),
                    Err(error) => Err(error),
                };
                (
                    Generation { stage: GenerationStage::Checking { request, outcome }, ..base },
                    Some(GenerationAction::CheckContext),
                )
            },
            (
                GenerationStage::Checking { request, outcome },
                GenerationEvent::ContextChecked { stopped, killed },
            ) => if stopped || killed {
                let request_id = base.request_id.clone();
                (base, Some(GenerationAction::Fail(GenerateError::Interrupted(request_id))))
            } else {
                base.decide(router, request, outcome)
            },
            (
                GenerationStage::EnteringDecode { request, routing },
                GenerationEvent::PhaseEntered,
            ) => base.decode(request, routing),
            (stage, _) => (Generation { stage, ..base }, None),
        }
    }

    /// Goes on with the request after `event`: says what is to be done next, or nothing
    /// where `event` answers nothing that was asked for. The number of the room that a
    /// prefill worker and a decode worker meet in is drawn at random.
    pub fn step<K, S, C>(
        self,
        router: &PrefillRouter<K, S, C>,
        event: GenerationEvent<T>,
    ) -> (next: (Self, Option<GenerationAction<K, S, P, T>>))
        ensures
            exists|room: u64| next == #[trigger] self.after_event(*router, event, room),
            !self.reaches_worker(event) ==> next == self.after_event(*router, event, 0),
    {
        let room: u64 = if self.needs_room(&event) {
            draw_room()
        } else {
            0
        };
        self.step_with_room(router, event, room)
    }
}

impl<K, S, C> PrefillRouter<K, S, C> {
    /// Takes `request` in, under its id, and says what is to be done first.
    ///
    /// As long as the router is not active, the request goes on to decoding as it is, or
    /// is refused where it must not go without a prefill.
    pub fn generate<P, T>(
        &self,
        request_id: String,
        request: PreprocessedRequest<P, T>,
    ) -> (begun: (Generation<P, T>, GenerationAction<K, S, P, T>))
        ensures
            begun == Generation::started(*self, request_id, request),
    {
        let start = Generation {
            request_id,
            max_tokens: request.stop_conditions.max_tokens,
            stage: GenerationStage::Finished,
        };
        if self.prefill_router.is_none() {
            if self.enforce_disagg {
                let error = GenerateError::Prefill(PrefillError::NotActivated);
                return (start, GenerationAction::Fail(error));
            }
            return (start, GenerationAction::Forward(request));
        }
        let tracker = match &request.tracker {
            Some(tracker) => share(tracker),
            None => {
                return (
                    Generation { stage: GenerationStage::NeedingTracker { request }, ..start },
                    GenerationAction::CreateTracker,
                );
            },
        };
        (
            Generation { stage: GenerationStage::EnteringPrefill { request }, ..start },
            GenerationAction::EnterPhase(tracker, RequestPhase::Prefill),
        )
    }

    /// Begins with a prefill that is waited for, on `target_worker` if there is one.
    pub fn call_prefill<P, T>(
        &self,
        request: PreprocessedRequest<P, T>,
        target_worker: Option<u64>,
    ) -> (begun: (PrefillExecution, Result<Dispatch<K, S, P, T>, PrefillError>))
        ensures
            match self.prefill_router {
                Some(router) => begun == (
                    PrefillExecution::Routing,
                    Ok::<_, PrefillError>(router.dispatch(request, target_worker)),
                ),
                None => begun == (
                    PrefillExecution::Finished,
                    Err::<Dispatch<K, S, P, T>, _>(PrefillError::NotActivated),
                ),
            },
    {
        PrefillExecution::execute_prefill(self.inner(), request, target_worker)
    }

    /// Begins with a prefill that nobody waits for, on `target_worker` if there is one.
    pub fn spawn_prefill_task<P, T>(
        &self,
        request: PreprocessedRequest<P, T>,
        target_worker: Option<u64>,
    ) -> (begun: (PrefillExecution, Result<Dispatch<K, S, P, T>, PrefillError>))
        ensures
            match self.prefill_router {
                Some(router) => begun == (
                    PrefillExecution::Routing,
                    Ok::<_, PrefillError>(router.dispatch(request, target_worker)),
                ),
                None => begun == (
                    PrefillExecution::Finished,
                    Err::<Dispatch<K, S, P, T>, _>(PrefillError::NotActivated),
                ),
            },
    {
        PrefillExecution::execute_prefill(self.inner(), request, target_worker)
    }

    fn inner(&self) -> (router: Option<InnerPrefillRouter<K, S>>)
        ensures
            router == self.prefill_router,
    {
        match &self.prefill_router {
            Some(router) => Some(router.clone()),
            None => None,
        }
    }
}

} // verus!
