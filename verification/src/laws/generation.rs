//! What holds of a request over any course of its way through the router.

use crate::bootstrap::DisaggregatedEndpoint;
use crate::error::{GenerateError, PrefillError};
use crate::execution::{
    first_details, named_worker, ExecutionEvent, PrefillExecution, Prefilled,
};
use crate::generation::{
    Generation, GenerationAction, GenerationEvent, GenerationStage, PrefillJob, PrefillRouting,
};
use crate::laws::execution;
use crate::laws::operations::{sent, tells_worker};
use crate::protocol::{
    Annotated, BootstrapInfo, PrefillResult, PreprocessedRequest, RequestPhase, RoutingHints,
};
use crate::router::{Dispatch, InnerPrefillRouter, PrefillRouter, RouterMode};
use serde_json::Value;
use std::sync::Arc;
use vstd::prelude::*;

verus! {

/// The way of `request` after `events`, each with the number of the room that would be
/// drawn at it, and the actions that were asked for, in their order.
pub open spec fn course<K, S, C, P, T>(
    router: PrefillRouter<K, S, C>,
    request_id: String,
    request: PreprocessedRequest<P, T>,
    events: Seq<(GenerationEvent<T>, u64)>,
) -> (Generation<P, T>, Seq<GenerationAction<K, S, P, T>>)
    decreases events.len(),
{
    if events.len() == 0 {
        let (start, action) = Generation::started(router, request_id, request);
        (start, seq![action])
    } else {
        let (before, actions) = course(router, request_id, request, events.drop_last());
        let (event, room) = events.last();
        let (after, action) = before.after_event(router, event, room);
        (
            after,
            match action {
                Some(action) => actions.push(action),
                None => actions,
            },
        )
    }
}

/// Where `request` asks to be routed; nowhere in particular where it has no hints.
pub open spec fn wishes<P, T>(request: PreprocessedRequest<P, T>) -> RoutingHints {
    match request.routing {
        Some(hints) => hints,
        None => RoutingHints {
            prefill_worker_id: None,
            decode_worker_id: None,
            dp_rank: None,
            lora_name: None,
        },
    }
}

/// Whether `other` is `request`, but for a tracker where `request` has none.
pub open spec fn same_but_tracked<P, T>(
    request: PreprocessedRequest<P, T>,
    other: PreprocessedRequest<P, T>,
) -> bool {
    &&& other == (PreprocessedRequest { tracker: other.tracker, ..request })
    &&& request.tracker is Some ==> other.tracker == request.tracker
}

/// Whether a request leaves with the action, for decoding or for good.
pub open spec fn is_last<K, S, P, T>(action: GenerationAction<K, S, P, T>) -> bool {
    action is Forward || action is Fail
}

/// Whether the action has a prefill executed.
pub open spec fn is_prefill<K, S, P, T>(action: GenerationAction<K, S, P, T>) -> bool {
    action is SpawnPrefill || action is CallPrefill
}

/// Whether the action lets the request enter the decode phase.
pub open spec fn enters_decode<K, S, P, T>(action: GenerationAction<K, S, P, T>) -> bool {
    match action {
        GenerationAction::EnterPhase(_, phase) => phase == RequestPhase::Decode,
        _ => false,
    }
}

/// The prefill that the action has executed.
pub open spec fn job_of<K, S, P, T>(action: GenerationAction<K, S, P, T>) -> PrefillJob<P, T> {
    match action {
        GenerationAction::SpawnPrefill(job) => job,
        GenerationAction::CallPrefill(job) => job,
        _ => arbitrary(),
    }
}

/// The request that is on its way.
spec fn on_the_way<P, T>(stage: GenerationStage<P, T>) -> PreprocessedRequest<P, T> {
    match stage {
        GenerationStage::NeedingTracker { request } => request,
        GenerationStage::EnteringPrefill { request } => request,
        GenerationStage::Matching { request, .. } => request,
        GenerationStage::Peeking { request, .. } => request,
        GenerationStage::Locating { request, .. } => request,
        GenerationStage::Advancing { request, .. } => request,
        GenerationStage::Spawning { request, .. } => request,
        GenerationStage::Releasing { request, .. } => request,
        GenerationStage::Prefilling { request } => request,
        GenerationStage::Checking { request, .. } => request,
        GenerationStage::EnteringDecode { request, .. } => request,
        GenerationStage::Finished => arbitrary(),
    }
}

/// The prefill that is bootstrapped for `request`.
spec fn is_bootstrapped<P, T>(
    request_id: String,
    request: PreprocessedRequest<P, T>,
    job: PrefillJob<P, T>,
    info: BootstrapInfo,
) -> bool {
    exists|worker_id: u64, dp_rank: u32|
        job == (PrefillJob {
            request_id,
            request: #[trigger] request.as_prefill().bootstrapped(worker_id, dp_rank, info),
            target_worker: Some(worker_id),
        }) && follows_hints(request, worker_id, dp_rank)
}

/// Whether a worker and its rank are those that `request` asks for, if it asks for any.
pub open spec fn follows_hints<P, T>(
    request: PreprocessedRequest<P, T>,
    worker_id: u64,
    dp_rank: u32,
) -> bool {
    wishes(request).prefill_worker_id is Some ==> {
        &&& wishes(request).prefill_worker_id == Some(worker_id)
        &&& dp_rank == (match wishes(request).dp_rank {
            Some(rank) => rank,
            None => 0,
        })
    }
}

/// What a stage holds.
spec fn carries<P, T>(
    request_id: String,
    request: PreprocessedRequest<P, T>,
    now: Generation<P, T>,
) -> bool {
    let current = on_the_way(now.stage);
    &&& now.request_id == request_id
    &&& now.max_tokens == request.stop_conditions.max_tokens
    &&& !(now.stage is Finished) ==> same_but_tracked(request, current)
    &&& !(now.stage is Finished) && !(now.stage is NeedingTracker) ==> current.tracker is Some
    &&& match now.stage {
        GenerationStage::NeedingTracker { .. } => request.tracker is None,
        GenerationStage::Matching { prefill, .. } => {
            &&& prefill == current.as_prefill()
            &&& wishes(request).prefill_worker_id is None
        },
        GenerationStage::Peeking { prefill, .. } => {
            &&& prefill == current.as_prefill()
            &&& wishes(request).prefill_worker_id is None
        },
        GenerationStage::Locating { prefill, worker_id, dp_rank, .. } => {
            &&& prefill == current.as_prefill()
            &&& follows_hints(request, worker_id, dp_rank)
        },
        GenerationStage::Releasing { prefill, .. } => prefill == current.as_prefill(),
        GenerationStage::Advancing { job, info, .. } => is_bootstrapped(
            request_id,
            current,
            job,
            info,
        ),
        GenerationStage::Spawning { routing, .. } => {
            routing.result is None && routing.bootstrap_info is Some
        },
        GenerationStage::Checking { outcome: Ok(routing), .. } => {
            routing.result is None <==> routing.bootstrap_info is Some
        },
        GenerationStage::EnteringDecode { routing, .. } => {
            routing.result is None <==> routing.bootstrap_info is Some
        },
        _ => true,
    }
}

proof fn lemma_carries<K, S, C, P, T>(
    router: PrefillRouter<K, S, C>,
    request_id: String,
    request: PreprocessedRequest<P, T>,
    events: Seq<(GenerationEvent<T>, u64)>,
)
    ensures
        carries(request_id, request, course(router, request_id, request, events).0),
        course(router, request_id, request, events).1.len() > 0,
    decreases events.len(),
{
    if events.len() > 0 {
        let before = events.drop_last();
        lemma_carries(router, request_id, request, before);
        let old = course(router, request_id, request, before).0;
        let now = course(router, request_id, request, events).0;
        if old.stage is Locating {
            let worker_id = old.stage->Locating_worker_id;
            let dp_rank = old.stage->Locating_dp_rank;
            if now.stage is Advancing {
                let info = now.stage->Advancing_info;
                assert(now.stage->Advancing_job.request
                    == on_the_way(old.stage).as_prefill().bootstrapped(worker_id, dp_rank, info));
            }
        }
    }
}

/// A request leaves once, with the last of the actions, and nothing happens after that.
pub proof fn law_one_end<K, S, C, P, T>(
    router: PrefillRouter<K, S, C>,
    request_id: String,
    request: PreprocessedRequest<P, T>,
    events: Seq<(GenerationEvent<T>, u64)>,
)
    ensures
        ({
            let (now, actions) = course(router, request_id, request, events);
            &&& actions.len() > 0
            &&& now.stage is Finished <==> is_last(actions.last())
            &&& forall|i: int| 0 <= i < actions.len() - 1 ==> !is_last(#[trigger] actions[i])
        }),
    decreases events.len(),
{
    if events.len() > 0 {
        law_one_end(router, request_id, request, events.drop_last());
    }
}

/// What leaves for decoding is the request that came: the same tokens, limits, hints,
/// annotations and payload, and the same tracker if it had one.
pub proof fn law_decoding_gets_the_request<K, S, C, P, T>(
    router: PrefillRouter<K, S, C>,
    request_id: String,
    request: PreprocessedRequest<P, T>,
    events: Seq<(GenerationEvent<T>, u64)>,
)
    ensures
        forall|i: int|
            #![trigger course(router, request_id, request, events).1[i]]
            {
                let actions = course(router, request_id, request, events).1;
                0 <= i < actions.len() && actions[i] is Forward ==> {
                    let decode = actions[i]->Forward_0;
                    &&& decode.token_ids == request.token_ids
                    &&& decode.stop_conditions == request.stop_conditions
                    &&& decode.annotations == request.annotations
                    &&& decode.routing == request.routing
                    &&& decode.payload == request.payload
                    &&& request.tracker is Some ==> decode.tracker == request.tracker
                }
            },
    decreases events.len(),
{
    if events.len() > 0 {
        let before = events.drop_last();
        law_decoding_gets_the_request(router, request_id, request, before);
        lemma_carries(router, request_id, request, before);
        let earlier = course(router, request_id, request, before).1;
        let actions = course(router, request_id, request, events).1;
        assert(forall|i: int| 0 <= i < earlier.len() ==> earlier[i] == actions[i]);
    }
}

/// A prefill is executed at most once for a request, under the id of the request. It gets
/// the request that came, but that it stops after its first token, and goes to the worker
/// that the request asks for, if it asks for any. If it is not waited for, it also goes to
/// the rank that the request asks for with the worker, and is told where to hand over its
/// results.
pub proof fn law_prefill_gets_the_request<K, S, C, P, T>(
    router: PrefillRouter<K, S, C>,
    request_id: String,
    request: PreprocessedRequest<P, T>,
    events: Seq<(GenerationEvent<T>, u64)>,
)
    ensures
        ({
            let (now, actions) = course(router, request_id, request, events);
            &&& forall|i: int, j: int|
                0 <= i < actions.len() && 0 <= j < actions.len() && is_prefill(
                    #[trigger] actions[i],
                ) && is_prefill(#[trigger] actions[j]) ==> i == j
            &&& forall|i: int|
                0 <= i < actions.len() && is_prefill(#[trigger] actions[i]) ==> prefill_is_for(
                    request_id,
                    request,
                    actions[i],
                )
        }),
{
    lemma_prefill(router, request_id, request, events);
}

/// The annotations of a request stay on whatever leaves for it: on the prefill and on the
/// decode request. So one that only asks for workers is heard by the routers of both.
pub proof fn law_annotations_stay<K, S, C, P, T>(
    router: PrefillRouter<K, S, C>,
    request_id: String,
    request: PreprocessedRequest<P, T>,
    events: Seq<(GenerationEvent<T>, u64)>,
)
    ensures
        ({
            let actions = course(router, request_id, request, events).1;
            forall|i: int|
                0 <= i < actions.len() ==> match #[trigger] actions[i] {
                    GenerationAction::Forward(decode) => decode.annotations == request.annotations,
                    GenerationAction::SpawnPrefill(job) => job.request.annotations
                        == request.annotations,
                    GenerationAction::CallPrefill(job) => job.request.annotations
                        == request.annotations,
                    _ => true,
                }
        }),
{
    law_decoding_gets_the_request(router, request_id, request, events);
    lemma_prefill(router, request_id, request, events);
}

/// Whether the prefill that the action has executed is one for `request`.
pub open spec fn prefill_is_for<K, S, P, T>(
    request_id: String,
    request: PreprocessedRequest<P, T>,
    action: GenerationAction<K, S, P, T>,
) -> bool {
    let prefill = job_of(action).request;
    &&& job_of(action).request_id == request_id
    &&& prefill.stop_conditions.max_tokens == Some(1u32)
    &&& prefill.token_ids == request.token_ids
    &&& prefill.annotations == request.annotations
    &&& prefill.router_config_override == request.router_config_override
    &&& prefill.prefill_result == request.prefill_result
    &&& prefill.payload == request.payload
    &&& prefill.tracker is Some
    &&& request.tracker is Some ==> prefill.tracker == request.tracker
    &&& if action is SpawnPrefill {
        &&& job_of(action).target_worker is Some
        &&& prefill.bootstrap_info is Some
        &&& wishes(prefill).prefill_worker_id == job_of(action).target_worker
        &&& wishes(prefill).dp_rank is Some
        &&& wishes(prefill).decode_worker_id == wishes(request).decode_worker_id
        &&& wishes(prefill).lora_name == wishes(request).lora_name
        &&& follows_hints(
            request,
            job_of(action).target_worker->0,
            wishes(prefill).dp_rank->0,
        )
    } else {
        &&& job_of(action).target_worker == wishes(request).prefill_worker_id
        &&& prefill.bootstrap_info == request.bootstrap_info
        &&& prefill.routing == request.routing
    }
}

/// Whether the prefill has been asked for at this stage.
spec fn has_prefill<P, T>(stage: GenerationStage<P, T>) -> bool {
    stage is Spawning || stage is Prefilling || stage is Checking || stage is EnteringDecode
        || stage is Finished
}

proof fn lemma_prefill<K, S, C, P, T>(
    router: PrefillRouter<K, S, C>,
    request_id: String,
    request: PreprocessedRequest<P, T>,
    events: Seq<(GenerationEvent<T>, u64)>,
)
    ensures
        ({
            let (now, actions) = course(router, request_id, request, events);
            &&& forall|i: int, j: int|
                0 <= i < actions.len() && 0 <= j < actions.len() && is_prefill(
                    #[trigger] actions[i],
                ) && is_prefill(#[trigger] actions[j]) ==> i == j
            &&& forall|i: int|
                0 <= i < actions.len() && is_prefill(#[trigger] actions[i]) ==> has_prefill(
                    now.stage,
                ) && prefill_is_for(request_id, request, actions[i])
        }),
    decreases events.len(),
{
    if events.len() > 0 {
        let before = events.drop_last();
        lemma_prefill(router, request_id, request, before);
        lemma_carries(router, request_id, request, before);
        let (old, earlier) = course(router, request_id, request, before);
        let actions = course(router, request_id, request, events).1;
        assert(forall|i: int| 0 <= i < earlier.len() ==> earlier[i] == actions[i]);
    }
}

/// Whether it was told that a prefill that was waited for gave `result`.
pub open spec fn was_told<T>(
    events: Seq<(GenerationEvent<T>, u64)>,
    result: Result<Prefilled, PrefillError>,
) -> bool {
    exists|k: int|
        0 <= k < events.len() && (#[trigger] events[k]).0 == GenerationEvent::<T>::PrefillFinished(
            result,
        )
}

/// Whether it was told that the request was stopped or killed.
pub open spec fn was_interrupted<T>(events: Seq<(GenerationEvent<T>, u64)>) -> bool {
    exists|k: int| 0 <= k < events.len() && is_interruption((#[trigger] events[k]).0)
}

/// Whether it was told that the request is still wanted.
pub open spec fn was_wanted<T>(events: Seq<(GenerationEvent<T>, u64)>) -> bool {
    exists|k: int|
        0 <= k < events.len() && (#[trigger] events[k]).0 == (GenerationEvent::<
            T,
        >::ContextChecked { stopped: false, killed: false })
}

/// Whether `event` tells that the request was stopped or killed.
pub open spec fn is_interruption<T>(event: GenerationEvent<T>) -> bool {
    match event {
        GenerationEvent::ContextChecked { stopped, killed } => stopped || killed,
        _ => false,
    }
}

/// Whether a prefill was started that hands over its results at `info`.
pub open spec fn was_spawned<K, S, P, T>(
    actions: Seq<GenerationAction<K, S, P, T>>,
    info: BootstrapInfo,
) -> bool {
    exists|i: int|
        0 <= i < actions.len() && (#[trigger] actions[i]) is SpawnPrefill && job_of(
            actions[i],
        ).request.bootstrap_info == Some(info)
}

/// Whether `decode` is the decode request for `request`: with the result of the prefill or
/// the place where to fetch it, as far as there is one, and otherwise with those that the
/// request came with; with no weight on the overlap; and as the request in all else, but for
/// a tracker where it has none.
pub open spec fn is_decode_for<P, T>(
    request: PreprocessedRequest<P, T>,
    result: Option<PrefillResult>,
    info: Option<BootstrapInfo>,
    decode: PreprocessedRequest<P, T>,
) -> bool {
    &&& match result {
        Some(given) => decode.prefill_result is Some && *decode.prefill_result->0 == given,
        None => decode.prefill_result == request.prefill_result,
    }
    &&& match info {
        Some(place) => decode.bootstrap_info == Some(place),
        None => decode.bootstrap_info == request.bootstrap_info,
    }
    &&& decode.router_config_override is Some
    &&& decode.router_config_override->0.overlap_score_weight == Some(0u64)
    &&& decode.router_config_override->0.router_temperature == (
    match request.router_config_override {
        Some(settings) => settings.router_temperature,
        None => None,
    })
    &&& decode.stop_conditions.max_tokens == request.stop_conditions.max_tokens
    &&& decode.token_ids == request.token_ids
    &&& decode.annotations == request.annotations
    &&& decode.routing == request.routing
    &&& decode.payload == request.payload
    &&& request.tracker is Some ==> decode.tracker == request.tracker
}

/// Whether `routing` comes from a prefill that was started, or from one that was waited for
/// and succeeded.
spec fn has_source<K, S, P, T>(
    events: Seq<(GenerationEvent<T>, u64)>,
    actions: Seq<GenerationAction<K, S, P, T>>,
    routing: PrefillRouting,
) -> bool {
    match routing.bootstrap_info {
        Some(info) => routing.result is None && was_spawned(actions, info),
        None => exists|prefilled: Prefilled|
            #[trigger] was_told(events, Ok(prefilled)) && routing.result == Some(prefilled.0),
    }
}

/// Whether a request that left for decoding did so in order.
pub open spec fn is_forwarded_well<K, S, C, P, T>(
    router: PrefillRouter<K, S, C>,
    request: PreprocessedRequest<P, T>,
    events: Seq<(GenerationEvent<T>, u64)>,
    actions: Seq<GenerationAction<K, S, P, T>>,
) -> bool {
    let decode = actions.last()->Forward_0;
    if actions.len() == 1 {
        &&& !router.active()
        &&& !router.enforce_disagg
        &&& decode == request
    } else {
        &&& was_wanted(events)
        &&& if enters_decode(actions[actions.len() - 2]) {
            ||| exists|info: BootstrapInfo|
                #[trigger] was_spawned(actions, info) && is_decode_for(
                    request,
                    None,
                    Some(info),
                    decode,
                )
            ||| exists|prefilled: Prefilled|
                #[trigger] was_told(events, Ok(prefilled)) && is_decode_for(
                    request,
                    Some(prefilled.0),
                    None,
                    decode,
                )
        } else {
            &&& !router.enforce_disagg
            &&& same_but_tracked(request, decode)
            &&& exists|error: PrefillError| #[trigger] was_told(events, Err(error))
        }
    }
}

/// Whether a request that was refused was so in order.
pub open spec fn is_refused_well<K, S, C, P, T>(
    router: PrefillRouter<K, S, C>,
    request_id: String,
    events: Seq<(GenerationEvent<T>, u64)>,
    actions: Seq<GenerationAction<K, S, P, T>>,
) -> bool {
    match actions.last()->Fail_0 {
        GenerateError::Interrupted(id) => id == request_id && was_interrupted(events),
        GenerateError::Prefill(error) => {
            &&& router.enforce_disagg
            &&& if actions.len() == 1 {
                !router.active() && error is NotActivated
            } else {
                was_told(events, Err(error)) && was_wanted(events)
            }
        },
    }
}

proof fn lemma_earlier_news<T>(
    before: Seq<(GenerationEvent<T>, u64)>,
    events: Seq<(GenerationEvent<T>, u64)>,
)
    requires
        events.len() > 0,
        before == events.drop_last(),
    ensures
        forall|result: Result<Prefilled, PrefillError>|
            #[trigger] was_told(before, result) ==> was_told(events, result),
        was_interrupted(before) ==> was_interrupted(events),
        was_wanted(before) ==> was_wanted(events),
        events.last().0 matches GenerationEvent::PrefillFinished(result) ==> was_told(
            events,
            result,
        ),
        is_interruption(events.last().0) ==> was_interrupted(events),
        events.last().0 == (GenerationEvent::<T>::ContextChecked { stopped: false, killed: false })
            ==> was_wanted(events),
{
    assert(forall|k: int| 0 <= k < before.len() ==> before[k] == events[k]);
    assert(events.last() == events[events.len() - 1]);
}

/// What each stage owes to what was told and done before.
spec fn sourced<K, S, C, P, T>(
    router: PrefillRouter<K, S, C>,
    request_id: String,
    request: PreprocessedRequest<P, T>,
    events: Seq<(GenerationEvent<T>, u64)>,
    now: Generation<P, T>,
    actions: Seq<GenerationAction<K, S, P, T>>,
) -> bool {
    match now.stage {
        GenerationStage::Advancing { job, info, .. } => job.request.bootstrap_info == Some(
            info,
        ),
        GenerationStage::Spawning { routing, .. } => has_source(events, actions, routing),
        GenerationStage::Checking { outcome, .. } => {
            &&& actions.last() is CheckContext
            &&& match outcome {
                Ok(routing) => has_source(events, actions, routing),
                Err(error) => was_told(events, Err(error)),
            }
        },
        GenerationStage::EnteringDecode { routing, .. } => {
            &&& has_source(events, actions, routing)
            &&& was_wanted(events)
            &&& enters_decode(actions.last())
        },
        GenerationStage::Finished => {
            &&& actions.last() is Forward ==> is_forwarded_well(
                router,
                request,
                events,
                actions,
            )
            &&& actions.last() is Fail ==> is_refused_well(
                router,
                request_id,
                events,
                actions,
            )
        },
        _ => true,
    }
}

proof fn lemma_sources<K, S, C, P, T>(
    router: PrefillRouter<K, S, C>,
    request_id: String,
    request: PreprocessedRequest<P, T>,
    events: Seq<(GenerationEvent<T>, u64)>,
)
    ensures
        sourced(
            router,
            request_id,
            request,
            events,
            course(router, request_id, request, events).0,
            course(router, request_id, request, events).1,
        ),
    decreases events.len(),
{
    if events.len() > 0 {
        let before = events.drop_last();
        lemma_sources(router, request_id, request, before);
        lemma_carries(router, request_id, request, before);
        law_one_end(router, request_id, request, before);
        lemma_earlier_news(before, events);
        let (old, earlier) = course(router, request_id, request, before);
        let (now, actions) = course(router, request_id, request, events);
        assert(forall|i: int| 0 <= i < earlier.len() ==> earlier[i] == actions[i]);
        assert forall|info: BootstrapInfo| #[trigger] was_spawned(
            earlier,
            info,
        ) implies was_spawned(actions, info) by {
            let i = choose|i: int|
                0 <= i < earlier.len() && (#[trigger] earlier[i]) is SpawnPrefill && job_of(
                    earlier[i],
                ).request.bootstrap_info == Some(info);
            assert(actions[i] == earlier[i]);
        }
        assert(actions.last() == actions[actions.len() - 1]);
        if actions != earlier {
            assert(actions[actions.len() - 2] == earlier.last());
        }
    }
}

/// A request leaves for decoding in one of four ways:
/// - as it came, if the router is not active and does not insist on prefills;
/// - to fetch the results of a prefill from where that prefill was told to hand them over;
/// - with the results of a prefill that was waited for;
/// - as it came, but for a tracker, if a prefill that was waited for failed and the router
///   does not insist on prefills.
///
/// But for the first way, the request has been found to be still wanted.
pub proof fn law_ways_to_decoding<K, S, C, P, T>(
    router: PrefillRouter<K, S, C>,
    request_id: String,
    request: PreprocessedRequest<P, T>,
    events: Seq<(GenerationEvent<T>, u64)>,
)
    ensures
        ({
            let actions = course(router, request_id, request, events).1;
            actions.last() is Forward ==> is_forwarded_well(router, request, events, actions)
        }),
{
    lemma_sources(router, request_id, request, events);
    law_one_end(router, request_id, request, events);
}

/// A request is refused for one of three reasons: it was stopped or killed during the
/// prefill; or the router insists on prefills, and is not active or was told of this very
/// failure of the prefill.
pub proof fn law_reasons_for_refusal<K, S, C, P, T>(
    router: PrefillRouter<K, S, C>,
    request_id: String,
    request: PreprocessedRequest<P, T>,
    events: Seq<(GenerationEvent<T>, u64)>,
)
    ensures
        ({
            let actions = course(router, request_id, request, events).1;
            actions.last() is Fail ==> is_refused_well(router, request_id, events, actions)
        }),
{
    lemma_sources(router, request_id, request, events);
    law_one_end(router, request_id, request, events);
}

/// Whether the router takes its workers in turn, or at random or as told, but not by what
/// they have cached.
pub open spec fn takes_turns<K, S, C>(router: PrefillRouter<K, S, C>) -> bool {
    &&& router.router_mode != RouterMode::KV
    &&& router.prefill_router is Some
    &&& router.prefill_router->0 is SimpleRouter
}

/// What each stage owes to the order of the actions before.
spec fn in_order<K, S, C, P, T>(
    router: PrefillRouter<K, S, C>,
    now: Generation<P, T>,
    actions: Seq<GenerationAction<K, S, P, T>>,
) -> bool {
    &&& now.stage is Advancing ==> actions.last() is SelectNextWorker
    &&& now.stage is Releasing ==> actions.last() is ReleasePermit
    &&& now.stage is Spawning || now.stage is Prefilling || now.stage is Checking
        || now.stage is EnteringDecode ==> exists|i: int|
        0 <= i < actions.len() && is_prefill(#[trigger] actions[i])
    &&& forall|i: int|
        0 <= i < actions.len() && (#[trigger] actions[i]) is SelectNextWorker ==> {
            &&& takes_turns(router)
            &&& if i == actions.len() - 1 {
                now.stage is Advancing
            } else {
                actions[i + 1] is SpawnPrefill
            }
        }
    &&& forall|i: int|
        0 <= i < actions.len() && (#[trigger] actions[i]) is SpawnPrefill && takes_turns(router)
            ==> i > 0 && actions[i - 1] is SelectNextWorker
    &&& forall|i: int|
        0 <= i < actions.len() && (#[trigger] actions[i]) is ReleasePermit ==> {
            if i == actions.len() - 1 {
                now.stage is Releasing
            } else {
                actions[i + 1] is CallPrefill
            }
        }
    &&& forall|i: int|
        0 <= i < actions.len() && (#[trigger] actions[i]) is CallPrefill ==> i > 0 && actions[i
            - 1] is ReleasePermit
    &&& forall|j: int|
        0 <= j < actions.len() && enters_decode(#[trigger] actions[j]) ==> exists|i: int|
            0 <= i < j && is_prefill(#[trigger] actions[i])
}

proof fn lemma_in_order<K, S, C, P, T>(
    router: PrefillRouter<K, S, C>,
    request_id: String,
    request: PreprocessedRequest<P, T>,
    events: Seq<(GenerationEvent<T>, u64)>,
)
    ensures
        in_order(
            router,
            course(router, request_id, request, events).0,
            course(router, request_id, request, events).1,
        ),
    decreases events.len(),
{
    if events.len() > 0 {
        let before = events.drop_last();
        lemma_in_order(router, request_id, request, before);
        lemma_carries(router, request_id, request, before);
        let (old, earlier) = course(router, request_id, request, before);
        let (now, actions) = course(router, request_id, request, events);
        assert(forall|i: int| 0 <= i < earlier.len() ==> earlier[i] == actions[i]);
        assert(actions.last() == actions[actions.len() - 1]);
        assert(earlier.last() == actions[earlier.len() - 1]);
        if exists|i: int| 0 <= i < earlier.len() && is_prefill(#[trigger] earlier[i]) {
            let i = choose|i: int| 0 <= i < earlier.len() && is_prefill(#[trigger] earlier[i]);
            assert(is_prefill(actions[i]));
        }
    }
}

/// A router that takes its workers in turn moves on exactly when one of them is taken: it
/// is told so once, right before the prefill is started that nobody waits for, and never for
/// a prefill that is waited for. A router that goes by what is cached is never told so.
pub proof fn law_moves_on_when_worker_is_taken<K, S, C, P, T>(
    router: PrefillRouter<K, S, C>,
    request_id: String,
    request: PreprocessedRequest<P, T>,
    events: Seq<(GenerationEvent<T>, u64)>,
)
    ensures
        ({
            let (now, actions) = course(router, request_id, request, events);
            &&& forall|i: int|
                0 <= i < actions.len() && (#[trigger] actions[i]) is SelectNextWorker ==> {
                    &&& takes_turns(router)
                    &&& i == actions.len() - 1 || actions[i + 1] is SpawnPrefill
                }
            &&& forall|i: int|
                0 <= i < actions.len() && (#[trigger] actions[i]) is SpawnPrefill && takes_turns(
                    router,
                ) ==> i > 0 && actions[i - 1] is SelectNextWorker
            &&& forall|i: int, j: int|
                0 <= i < actions.len() && 0 <= j < actions.len() && (#[trigger] actions[i]) is SelectNextWorker
                    && (#[trigger] actions[j]) is SelectNextWorker ==> i == j
            &&& forall|i: int, j: int|
                0 <= i < actions.len() && 0 <= j < actions.len() && (#[trigger] actions[i]) is SelectNextWorker
                    ==> !((#[trigger] actions[j]) is CallPrefill)
        }),
{
    lemma_in_order(router, request_id, request, events);
    lemma_prefill(router, request_id, request, events);
    let (now, actions) = course(router, request_id, request, events);
    assert forall|i: int, j: int|
        0 <= i < actions.len() && 0 <= j < actions.len() && (#[trigger] actions[i]) is SelectNextWorker
            && (#[trigger] actions[j]) is SelectNextWorker implies i == j by {
        if i < actions.len() - 1 {
            assert(is_prefill(actions[i + 1]));
        }
        if j < actions.len() - 1 {
            assert(is_prefill(actions[j + 1]));
        }
    }
    assert forall|i: int, j: int|
        0 <= i < actions.len() && 0 <= j < actions.len() && (#[trigger] actions[i]) is SelectNextWorker implies !((
    #[trigger] actions[j]) is CallPrefill) by {
        if i < actions.len() - 1 {
            assert(is_prefill(actions[i + 1]));
        }
        if actions[j] is CallPrefill {
            assert(is_prefill(actions[j]));
        }
    }
}

/// The request enters the decode phase only after its prefill: by then the permit for the
/// prefill phase went with a prefill that was started, or was released right before a
/// prefill that was waited for. It is never both.
pub proof fn law_permit_goes_before_decode<K, S, C, P, T>(
    router: PrefillRouter<K, S, C>,
    request_id: String,
    request: PreprocessedRequest<P, T>,
    events: Seq<(GenerationEvent<T>, u64)>,
)
    ensures
        ({
            let (now, actions) = course(router, request_id, request, events);
            &&& forall|j: int|
                0 <= j < actions.len() && enters_decode(#[trigger] actions[j]) ==> exists|i: int|
                    0 <= i < j && is_prefill(#[trigger] actions[i])
            &&& forall|i: int|
                0 <= i < actions.len() && (#[trigger] actions[i]) is CallPrefill ==> i > 0
                    && actions[i - 1] is ReleasePermit
            &&& forall|i: int, j: int|
                0 <= i < actions.len() && 0 <= j < actions.len() && (#[trigger] actions[i]) is ReleasePermit
                    ==> !((#[trigger] actions[j]) is SpawnPrefill)
        }),
{
    lemma_in_order(router, request_id, request, events);
    lemma_prefill(router, request_id, request, events);
    let (now, actions) = course(router, request_id, request, events);
    assert forall|i: int, j: int|
        0 <= i < actions.len() && 0 <= j < actions.len() && (#[trigger] actions[i]) is ReleasePermit implies !((
    #[trigger] actions[j]) is SpawnPrefill) by {
        if i < actions.len() - 1 {
            assert(is_prefill(actions[i + 1]));
        }
        if actions[j] is SpawnPrefill {
            assert(is_prefill(actions[j]));
        }
    }
}

/// What each stage owes to a prefill that was started.
spec fn meets<K, S, P, T>(
    job: PrefillJob<P, T>,
    now: Generation<P, T>,
    actions: Seq<GenerationAction<K, S, P, T>>,
) -> bool {
    match now.stage {
        GenerationStage::Spawning { routing, .. } => {
            &&& routing.bootstrap_info is Some
            &&& routing.bootstrap_info == job.request.bootstrap_info
        },
        GenerationStage::Checking { outcome, .. } => {
            &&& outcome is Ok
            &&& outcome->Ok_0.bootstrap_info is Some
            &&& outcome->Ok_0.bootstrap_info == job.request.bootstrap_info
        },
        GenerationStage::EnteringDecode { routing, .. } => {
            &&& routing.bootstrap_info is Some
            &&& routing.bootstrap_info == job.request.bootstrap_info
        },
        GenerationStage::Finished => {
            ||| actions.last() is Forward && actions.last()->Forward_0.bootstrap_info
                == job.request.bootstrap_info
            ||| actions.last() is Fail && actions.last()->Fail_0 is Interrupted
        },
        _ => false,
    }
}

proof fn lemma_meets<K, S, C, P, T>(
    router: PrefillRouter<K, S, C>,
    request_id: String,
    request: PreprocessedRequest<P, T>,
    events: Seq<(GenerationEvent<T>, u64)>,
)
    ensures
        ({
            let (now, actions) = course(router, request_id, request, events);
            &&& forall|i: int|
                0 <= i < actions.len() && (#[trigger] actions[i]) is SpawnPrefill ==> meets(
                    job_of(actions[i]),
                    now,
                    actions,
                )
            &&& now.stage matches GenerationStage::Advancing { job, info, .. }
                ==> job.request.bootstrap_info == Some(info)
        }),
    decreases events.len(),
{
    if events.len() > 0 {
        let before = events.drop_last();
        lemma_meets(router, request_id, request, before);
        let (old, earlier) = course(router, request_id, request, before);
        let (now, actions) = course(router, request_id, request, events);
        assert(forall|i: int| 0 <= i < earlier.len() ==> earlier[i] == actions[i]);
    }
}

/// After a prefill was started that nobody waits for, the request goes on to decoding
/// unless it was stopped or killed, and the decode worker looks for the results where the
/// prefill worker was told to hand them over: same host, same port, same room.
pub proof fn law_workers_meet<K, S, C, P, T>(
    router: PrefillRouter<K, S, C>,
    request_id: String,
    request: PreprocessedRequest<P, T>,
    events: Seq<(GenerationEvent<T>, u64)>,
)
    ensures
        ({
            let (now, actions) = course(router, request_id, request, events);
            forall|i: int|
                0 <= i < actions.len() && (#[trigger] actions[i]) is SpawnPrefill
                    && now.stage is Finished ==> {
                    ||| actions.last() is Forward && actions.last()->Forward_0.bootstrap_info
                        == job_of(actions[i]).request.bootstrap_info
                    ||| actions.last() is Fail && actions.last()->Fail_0 is Interrupted
                }
        }),
{
    lemma_meets(router, request_id, request, events);
}

/// A request that names a prefill worker has its prefill go to that worker, waited for or
/// not: a simple router sends it straight there, and the router that goes by what is cached
/// finds the worker in the hints.
pub proof fn law_named_worker_gets_the_prefill<K, S, C, P, T>(
    router: PrefillRouter<K, S, C>,
    request_id: String,
    request: PreprocessedRequest<P, T>,
    events: Seq<(GenerationEvent<T>, u64)>,
    inner: InnerPrefillRouter<K, S>,
    named: u64,
)
    requires
        wishes(request).prefill_worker_id == Some(named),
    ensures
        ({
            let actions = course(router, request_id, request, events).1;
            forall|i: int|
                0 <= i < actions.len() && is_prefill(#[trigger] actions[i]) ==> {
                    let job = job_of(actions[i]);
                    match inner.dispatch(job.request, job.target_worker) {
                        Dispatch::Kv(_, sent) => {
                            &&& sent == job.request
                            &&& wishes(sent).prefill_worker_id == Some(named)
                        },
                        Dispatch::Direct(_, sent, worker_id) => {
                            &&& sent == job.request
                            &&& worker_id == named
                        },
                        Dispatch::Simple(..) => false,
                    }
                }
        }),
{
    lemma_prefill(router, request_id, request, events);
}

/// Whether the action concerns no other tracker than `tracker`.
pub open spec fn is_tracked_by<K, S, P, T>(
    tracker: Option<Arc<T>>,
    action: GenerationAction<K, S, P, T>,
) -> bool {
    match action {
        GenerationAction::EnterPhase(entering, _) => tracker == Some(entering),
        GenerationAction::SpawnPrefill(job) => tracker == job.request.tracker,
        GenerationAction::CallPrefill(job) => tracker == job.request.tracker,
        GenerationAction::Forward(decode) => tracker == decode.tracker,
        _ => true,
    }
}

/// Whether all actions concern no other tracker than `tracker`.
pub open spec fn are_tracked_by<K, S, P, T>(
    tracker: Option<Arc<T>>,
    actions: Seq<GenerationAction<K, S, P, T>>,
) -> bool {
    forall|i: int| 0 <= i < actions.len() ==> is_tracked_by(tracker, #[trigger] actions[i])
}

proof fn lemma_one_tracker<K, S, C, P, T>(
    router: PrefillRouter<K, S, C>,
    request_id: String,
    request: PreprocessedRequest<P, T>,
    events: Seq<(GenerationEvent<T>, u64)>,
)
    ensures
        ({
            let (now, actions) = course(router, request_id, request, events);
            &&& match now.stage {
                GenerationStage::NeedingTracker { .. } => {
                    actions.len() == 1 && actions[0] is CreateTracker
                },
                GenerationStage::Finished => exists|tracker: Option<Arc<T>>|
                    #[trigger] are_tracked_by(tracker, actions),
                _ => are_tracked_by(on_the_way(now.stage).tracker, actions),
            }
            &&& request.tracker is Some ==> are_tracked_by(request.tracker, actions)
        }),
    decreases events.len(),
{
    let (now, actions) = course(router, request_id, request, events);
    if events.len() > 0 {
        let before = events.drop_last();
        lemma_one_tracker(router, request_id, request, before);
        lemma_carries(router, request_id, request, before);
        let (old, earlier) = course(router, request_id, request, before);
        if !(old.stage is Finished) && now.stage is Finished {
            assert(are_tracked_by(on_the_way(old.stage).tracker, actions));
        }
    } else if now.stage is Finished {
        assert(are_tracked_by(request.tracker, actions));
    }
}

/// One tracker follows a request all the way: the phases, the prefill and the decode
/// request have the same one. It is that of the request, if it came with one.
pub proof fn law_one_tracker<K, S, C, P, T>(
    router: PrefillRouter<K, S, C>,
    request_id: String,
    request: PreprocessedRequest<P, T>,
    events: Seq<(GenerationEvent<T>, u64)>,
)
    ensures
        ({
            let actions = course(router, request_id, request, events).1;
            &&& exists|tracker: Option<Arc<T>>| #[trigger] are_tracked_by(tracker, actions)
            &&& request.tracker is Some ==> are_tracked_by(request.tracker, actions)
        }),
{
    lemma_one_tracker(router, request_id, request, events);
    let (now, actions) = course(router, request_id, request, events);
    if !(now.stage is Finished) {
        assert(are_tracked_by(on_the_way(now.stage).tracker, actions));
    }
}

/// Whether the action lets the request enter the prefill phase.
pub open spec fn enters_prefill<K, S, P, T>(action: GenerationAction<K, S, P, T>) -> bool {
    match action {
        GenerationAction::EnterPhase(_, phase) => phase == RequestPhase::Prefill,
        _ => false,
    }
}

proof fn lemma_phases<K, S, C, P, T>(
    router: PrefillRouter<K, S, C>,
    request_id: String,
    request: PreprocessedRequest<P, T>,
    events: Seq<(GenerationEvent<T>, u64)>,
)
    ensures
        ({
            let (now, actions) = course(router, request_id, request, events);
            &&& actions.len() > 0
            &&& !(now.stage is Finished) && !(now.stage is NeedingTracker) ==> exists|k: int|
                0 <= k < actions.len() && enters_prefill(#[trigger] actions[k])
            &&& forall|i: int|
                0 <= i < actions.len() && is_prefill(#[trigger] actions[i]) ==> exists|k: int|
                    0 <= k < i && enters_prefill(#[trigger] actions[k])
            &&& forall|j: int|
                0 <= j < actions.len() && enters_decode(#[trigger] actions[j]) ==> if j
                    == actions.len() - 1 {
                    now.stage is EnteringDecode
                } else {
                    j == actions.len() - 2 && actions.last() is Forward && now.stage is Finished
                }
        }),
    decreases events.len(),
{
    let (now, actions) = course(router, request_id, request, events);
    if events.len() > 0 {
        let before = events.drop_last();
        lemma_phases(router, request_id, request, before);
        let (old, earlier) = course(router, request_id, request, before);
        assert(forall|i: int| 0 <= i < earlier.len() ==> earlier[i] == actions[i]);
        assert(actions.last() == actions[actions.len() - 1]);
        assert forall|i: int|
            0 <= i < actions.len() && is_prefill(#[trigger] actions[i]) implies exists|k: int|
            0 <= k < i && enters_prefill(#[trigger] actions[k]) by {
            if i < earlier.len() {
                assert(is_prefill(earlier[i]));
                let k = choose|k: int| 0 <= k < i && enters_prefill(#[trigger] earlier[k]);
                assert(enters_prefill(actions[k]));
            } else {
                let k = choose|k: int|
                    0 <= k < earlier.len() && enters_prefill(#[trigger] earlier[k]);
                assert(enters_prefill(actions[k]));
            }
        }
        if exists|k: int| 0 <= k < earlier.len() && enters_prefill(#[trigger] earlier[k]) {
            let k = choose|k: int| 0 <= k < earlier.len() && enters_prefill(#[trigger] earlier[k]);
            assert(enters_prefill(actions[k]));
        }
    } else if !(now.stage is Finished) && !(now.stage is NeedingTracker) {
        assert(enters_prefill(actions[0]));
    }
}

/// A request enters the prefill phase before its prefill. It enters the decode phase right
/// before it leaves for decoding, so not where it is refused.
pub proof fn law_phases_in_order<K, S, C, P, T>(
    router: PrefillRouter<K, S, C>,
    request_id: String,
    request: PreprocessedRequest<P, T>,
    events: Seq<(GenerationEvent<T>, u64)>,
)
    ensures
        ({
            let actions = course(router, request_id, request, events).1;
            &&& forall|i: int|
                0 <= i < actions.len() && is_prefill(#[trigger] actions[i]) ==> exists|k: int|
                    0 <= k < i && enters_prefill(#[trigger] actions[k])
            &&& forall|j: int|
                0 <= j < actions.len() - 1 && enters_decode(#[trigger] actions[j]) ==> {
                    &&& j == actions.len() - 2
                    &&& actions.last() is Forward
                }
            &&& actions.last() is Fail ==> forall|j: int|
                0 <= j < actions.len() ==> !enters_decode(#[trigger] actions[j])
        }),
{
    lemma_phases(router, request_id, request, events);
}

/// After a failed prefill a request never enters the decode phase, whatever happens then.
pub proof fn law_no_decode_phase_after_failed_prefill<K, S, C, P, T>(
    router: PrefillRouter<K, S, C>,
    request_id: String,
    request: PreprocessedRequest<P, T>,
    events: Seq<(GenerationEvent<T>, u64)>,
    error: PrefillError,
    room: u64,
    more: Seq<(GenerationEvent<T>, u64)>,
)
    requires
        course(router, request_id, request, events).0.stage is Prefilling,
    ensures
        ({
            let later = events.push((GenerationEvent::PrefillFinished(Err(error)), room)) + more;
            let (now, actions) = course(router, request_id, request, later);
            &&& forall|j: int| 0 <= j < actions.len() ==> !enters_decode(#[trigger] actions[j])
            &&& match now.stage {
                GenerationStage::Checking { outcome, .. } => outcome == Err::<PrefillRouting, _>(
                    error,
                ),
                GenerationStage::Finished => true,
                _ => false,
            }
        }),
    decreases more.len(),
{
    let failed = events.push((GenerationEvent::PrefillFinished(Err(error)), room));
    let later = failed + more;
    if more.len() > 0 {
        assert(later.drop_last() =~= failed + more.drop_last());
        law_no_decode_phase_after_failed_prefill(
            router,
            request_id,
            request,
            events,
            error,
            room,
            more.drop_last(),
        );
        let earlier = course(router, request_id, request, later.drop_last()).1;
        let actions = course(router, request_id, request, later).1;
        assert(forall|i: int| 0 <= i < earlier.len() ==> earlier[i] == actions[i]);
    } else {
        assert(later =~= failed);
        assert(failed.drop_last() =~= events);
        lemma_phases(router, request_id, request, events);
        let earlier = course(router, request_id, request, events).1;
        let actions = course(router, request_id, request, failed).1;
        assert(forall|i: int| 0 <= i < earlier.len() ==> earlier[i] == actions[i]);
    }
}

/// How many actions can still follow at a stage.
spec fn ahead<P, T>(stage: GenerationStage<P, T>) -> nat {
    match stage {
        GenerationStage::NeedingTracker { .. } => 8,
        GenerationStage::EnteringPrefill { .. } => 7,
        GenerationStage::Matching { .. } => 6,
        GenerationStage::Peeking { .. } => 6,
        GenerationStage::Locating { .. } => 5,
        GenerationStage::Advancing { .. } => 4,
        GenerationStage::Releasing { .. } => 4,
        GenerationStage::Spawning { .. } => 3,
        GenerationStage::Prefilling { .. } => 3,
        GenerationStage::Checking { .. } => 2,
        GenerationStage::EnteringDecode { .. } => 1,
        GenerationStage::Finished => 0,
    }
}

/// Whether `event` is an answer to `action`.
pub open spec fn answers<K, S, P, T>(
    action: GenerationAction<K, S, P, T>,
    event: GenerationEvent<T>,
) -> bool {
    match action {
        GenerationAction::CreateTracker => event is TrackerCreated,
        GenerationAction::EnterPhase(..) => event is PhaseEntered,
        GenerationAction::FindBestMatch(..) => event is BestMatchFound,
        GenerationAction::PeekNextWorker(_) => event is NextWorkerPeeked,
        GenerationAction::FindEndpoint { .. } => event is EndpointFound,
        GenerationAction::SelectNextWorker(_) => event is WorkerSelected,
        GenerationAction::SpawnPrefill(_) => event is PrefillSpawned,
        GenerationAction::ReleasePermit => event is PermitReleased,
        GenerationAction::CallPrefill(_) => event is PrefillFinished,
        GenerationAction::CheckContext => event is ContextChecked,
        GenerationAction::Forward(_) => false,
        GenerationAction::Fail(_) => false,
    }
}

/// Every answer to the latest action brings another action, and nothing else does. A
/// request that gets its answers leaves with the ninth action or before.
pub proof fn law_answers_lead_to_the_end<K, S, C, P, T>(
    router: PrefillRouter<K, S, C>,
    request_id: String,
    request: PreprocessedRequest<P, T>,
    events: Seq<(GenerationEvent<T>, u64)>,
)
    ensures
        ({
            let (now, actions) = course(router, request_id, request, events);
            &&& 0 < actions.len() <= 9
            &&& forall|event: GenerationEvent<T>, room: u64|
                (#[trigger] now.after_event(router, event, room)).1 is Some <==> answers(
                    actions.last(),
                    event,
                )
        }),
{
    lemma_answers(router, request_id, request, events);
}

proof fn lemma_answers<K, S, C, P, T>(
    router: PrefillRouter<K, S, C>,
    request_id: String,
    request: PreprocessedRequest<P, T>,
    events: Seq<(GenerationEvent<T>, u64)>,
)
    ensures
        ({
            let (now, actions) = course(router, request_id, request, events);
            &&& 0 < actions.len()
            &&& actions.len() + ahead(now.stage) <= 9
            &&& forall|event: GenerationEvent<T>, room: u64|
                (#[trigger] now.after_event(router, event, room)).1 is Some <==> answers(
                    actions.last(),
                    event,
                )
        }),
    decreases events.len(),
{
    if events.len() > 0 {
        lemma_answers(router, request_id, request, events.drop_last());
    }
}

/// A worker that the request asks for is taken without asking any router for one. For any
/// other request, the router that goes by what is cached is asked for the best match to
/// the prompt, without counting the request towards any load; a router that takes its
/// workers in turn is asked for the next one. The worker is looked up at the endpoint of
/// the prefill workers.
pub proof fn law_how_a_worker_is_found<K, S, C, P, T>(
    router: PrefillRouter<K, S, C>,
    request_id: String,
    request: PreprocessedRequest<P, T>,
    events: Seq<(GenerationEvent<T>, u64)>,
)
    ensures
        ({
            let (now, actions) = course(router, request_id, request, events);
            forall|i: int|
                0 <= i < actions.len() ==> asks_well(router, request, #[trigger] actions[i])
        }),
    decreases events.len(),
{
    if events.len() > 0 {
        let before = events.drop_last();
        law_how_a_worker_is_found(router, request_id, request, before);
        lemma_carries(router, request_id, request, before);
        let earlier = course(router, request_id, request, before).1;
        let actions = course(router, request_id, request, events).1;
        assert(forall|i: int| 0 <= i < earlier.len() ==> earlier[i] == actions[i]);
    }
}

/// Whether the action, if it asks for a worker or for its endpoint, asks for the right one.
pub open spec fn asks_well<K, S, C, P, T>(
    router: PrefillRouter<K, S, C>,
    request: PreprocessedRequest<P, T>,
    action: GenerationAction<K, S, P, T>,
) -> bool {
    match action {
        GenerationAction::FindBestMatch(kv_router, query) => {
            &&& wishes(request).prefill_worker_id is None
            &&& router.router_mode == RouterMode::KV
            &&& router.prefill_router == Some(InnerPrefillRouter::<K, S>::KvRouter(kv_router))
            &&& query.token_ids == request.token_ids
            &&& query.lora_name == wishes(request).lora_name
            &&& !query.update_states
            &&& query.context_id is None
            &&& query.router_config_override is None
        },
        GenerationAction::PeekNextWorker(simple_router) => {
            &&& wishes(request).prefill_worker_id is None
            &&& router.router_mode != RouterMode::KV
            &&& router.prefill_router == Some(
                InnerPrefillRouter::<K, S>::SimpleRouter(simple_router),
            )
        },
        GenerationAction::FindEndpoint { endpoint_id, worker_id } => {
            &&& router.endpoint_id == Some(endpoint_id)
            &&& wishes(request).prefill_worker_id is Some ==> wishes(request).prefill_worker_id
                == Some(worker_id)
        },
        _ => true,
    }
}

/// A prefill that nobody waits for reaches its worker: the simple router sends it straight
/// there, and the router that goes by what is cached finds the worker in the hints.
pub proof fn law_started_prefill_reaches_its_worker<K, S, C, P, T>(
    router: PrefillRouter<K, S, C>,
    request_id: String,
    request: PreprocessedRequest<P, T>,
    events: Seq<(GenerationEvent<T>, u64)>,
    inner: InnerPrefillRouter<K, S>,
)
    ensures
        ({
            let actions = course(router, request_id, request, events).1;
            forall|i: int|
                0 <= i < actions.len() && (#[trigger] actions[i]) is SpawnPrefill ==> {
                    let job = job_of(actions[i]);
                    match inner.dispatch(job.request, job.target_worker) {
                        Dispatch::Kv(_, sent) => {
                            &&& sent == job.request
                            &&& wishes(sent).prefill_worker_id is Some
                            &&& wishes(sent).prefill_worker_id == job.target_worker
                        },
                        Dispatch::Direct(_, sent, worker_id) => {
                            &&& sent == job.request
                            &&& job.target_worker == Some(worker_id)
                        },
                        Dispatch::Simple(..) => false,
                    }
                }
        }),
{
    lemma_prefill(router, request_id, request, events);
}

/// What a prefill that was waited for gave reaches decoding. Where its first output reports
/// no error and holds parameters, the prefill succeeds, and the decode request holds those
/// parameters, and the first details on the prompt that any output reports.
pub proof fn law_results_reach_decoding<K, S, C, P, T>(
    router: PrefillRouter<K, S, C>,
    request_id: String,
    request: PreprocessedRequest<P, T>,
    events: Seq<(GenerationEvent<T>, u64)>,
    rooms: (u64, u64, u64),
    outputs: Seq<Annotated>,
    params: Value,
)
    requires
        course(router, request_id, request, events).0.stage is Prefilling,
        outputs.len() > 0,
        outputs[0].error is None,
        outputs[0].data is Some,
        outputs[0].data->0.disaggregated_params == Some(params),
    ensures
        ({
            let finish = execution::course(
                PrefillExecution::Routing,
                execution::received(outputs).push(ExecutionEvent::Output(None)),
            ).1.last();
            let prefilled = finish->Finish_0->Ok_0;
            let later = events.push((GenerationEvent::PrefillFinished(Ok(prefilled)), rooms.0)).push(
                (GenerationEvent::ContextChecked { stopped: false, killed: false }, rooms.1),
            ).push((GenerationEvent::PhaseEntered, rooms.2));
            let actions = course(router, request_id, request, later).1;
            let decode = actions.last()->Forward_0;
            &&& finish is Finish
            &&& finish->Finish_0 is Ok
            &&& tells_worker(params, prefilled.1)
            &&& prefilled.1 == named_worker(params)
            &&& prefilled.0.prompt_tokens_details == first_details(outputs)
            &&& actions.last() is Forward
            &&& is_decode_for(request, Some(prefilled.0), None, decode)
            &&& decode.prefill_result is Some
            &&& decode.prefill_result->0.disaggregated_params == params
            &&& execution::are_first_reported(
                outputs,
                decode.prefill_result->0.prompt_tokens_details,
            )
        }),
{
    execution::law_good_stream_succeeds(outputs, params);
    execution::law_outputs_settle_result(outputs);
    lemma_carries(router, request_id, request, events);
    let prefilled = execution::course(
        PrefillExecution::Routing,
        execution::received(outputs).push(ExecutionEvent::Output(None)),
    ).1.last()->Finish_0->Ok_0;
    let finished = events.push((GenerationEvent::PrefillFinished(Ok(prefilled)), rooms.0));
    let checked = finished.push(
        (GenerationEvent::ContextChecked { stopped: false, killed: false }, rooms.1),
    );
    let later = checked.push((GenerationEvent::PhaseEntered, rooms.2));
    assert(finished.drop_last() =~= events);
    assert(checked.drop_last() =~= finished);
    assert(later.drop_last() =~= checked);
    assert(course(router, request_id, request, finished).0.stage is Checking);
    assert(course(router, request_id, request, checked).0.stage is EnteringDecode);
}

/// A request whose prefill failed, and that is still wanted, is refused with this very
/// failure by a router that insists on prefills. Any other router hands it on to decoding
/// as it came, but for a tracker.
pub proof fn law_failed_prefill_is_answered<K, S, C, P, T>(
    router: PrefillRouter<K, S, C>,
    request_id: String,
    request: PreprocessedRequest<P, T>,
    events: Seq<(GenerationEvent<T>, u64)>,
    rooms: (u64, u64),
    error: PrefillError,
)
    requires
        course(router, request_id, request, events).0.stage is Prefilling,
    ensures
        ({
            let later = events.push((GenerationEvent::PrefillFinished(Err(error)), rooms.0)).push(
                (GenerationEvent::ContextChecked { stopped: false, killed: false }, rooms.1),
            );
            let last = course(router, request_id, request, later).1.last();
            if router.enforce_disagg {
                last == GenerationAction::<K, S, P, T>::Fail(GenerateError::Prefill(error))
            } else {
                last is Forward && same_but_tracked(request, last->Forward_0)
            }
        }),
{
    lemma_carries(router, request_id, request, events);
    let finished = events.push((GenerationEvent::PrefillFinished(Err(error)), rooms.0));
    let later = finished.push(
        (GenerationEvent::ContextChecked { stopped: false, killed: false }, rooms.1),
    );
    assert(finished.drop_last() =~= events);
    assert(later.drop_last() =~= finished);
    assert(course(router, request_id, request, finished).0.stage is Checking);
}

/// A request that was stopped or killed during the prefill is refused, whatever came of
/// the prefill.
pub proof fn law_interrupted_request_is_refused<K, S, C, P, T>(
    router: PrefillRouter<K, S, C>,
    request_id: String,
    request: PreprocessedRequest<P, T>,
    events: Seq<(GenerationEvent<T>, u64)>,
    event: GenerationEvent<T>,
    room: u64,
)
    requires
        course(router, request_id, request, events).0.stage is Checking,
        is_interruption(event),
    ensures
        ({
            let (now, actions) = course(router, request_id, request, events.push((event, room)));
            &&& now.stage is Finished
            &&& actions.last() == GenerationAction::<K, S, P, T>::Fail(
                GenerateError::Interrupted(request_id),
            )
        }),
{
    lemma_carries(router, request_id, request, events);
    assert(events.push((event, room)).drop_last() =~= events);
}

/// Which action came last, at each stage.
spec fn is_latest<K, S, C, P, T>(
    router: PrefillRouter<K, S, C>,
    stage: GenerationStage<P, T>,
    last: GenerationAction<K, S, P, T>,
) -> bool {
    match stage {
        GenerationStage::NeedingTracker { .. } => router.active() && last is CreateTracker,
        GenerationStage::EnteringPrefill { request } => {
            &&& router.active()
            &&& request.tracker is Some
            &&& last == GenerationAction::<K, S, P, T>::EnterPhase(
                request.tracker->0,
                RequestPhase::Prefill,
            )
        },
        GenerationStage::Matching { .. } => {
            &&& router.endpoint_id is Some
            &&& router.active()
            &&& last is FindBestMatch
        },
        GenerationStage::Peeking { .. } => {
            &&& router.endpoint_id is Some
            &&& router.active()
            &&& last is PeekNextWorker
        },
        GenerationStage::Locating { worker_id, .. } => {
            &&& router.endpoint_id is Some
            &&& router.active()
            &&& last == (GenerationAction::<K, S, P, T>::FindEndpoint {
                endpoint_id: router.endpoint_id->0,
                worker_id,
            })
        },
        GenerationStage::Advancing { .. } => last is SelectNextWorker,
        GenerationStage::Spawning { request, routing } => {
            &&& last is SpawnPrefill
            &&& last->SpawnPrefill_0.request.bootstrap_info is Some
            &&& last->SpawnPrefill_0.request.bootstrap_info == routing.bootstrap_info
            &&& last->SpawnPrefill_0.target_worker == routing.worker_id
            &&& last->SpawnPrefill_0.request.tracker == request.tracker
        },
        GenerationStage::Releasing { .. } => last is ReleasePermit,
        GenerationStage::Prefilling { request } => {
            &&& last is CallPrefill
            &&& last->CallPrefill_0.request.tracker == request.tracker
        },
        GenerationStage::Checking { .. } => last is CheckContext,
        GenerationStage::EnteringDecode { request, .. } => {
            &&& request.tracker is Some
            &&& last == GenerationAction::<K, S, P, T>::EnterPhase(
                request.tracker->0,
                RequestPhase::Decode,
            )
        },
        GenerationStage::Finished => is_last(last),
    }
}

proof fn lemma_latest<K, S, C, P, T>(
    router: PrefillRouter<K, S, C>,
    request_id: String,
    request: PreprocessedRequest<P, T>,
    events: Seq<(GenerationEvent<T>, u64)>,
)
    ensures
        is_latest(
            router,
            course(router, request_id, request, events).0.stage,
            course(router, request_id, request, events).1.last(),
        ),
    decreases events.len(),
{
    if events.len() > 0 {
        let before = events.drop_last();
        lemma_latest(router, request_id, request, before);
        lemma_carries(router, request_id, request, before);
        lemma_meets(router, request_id, request, before);
    }
}

/// An event that brings no action leaves the request where it is.
pub proof fn law_other_events_change_nothing<K, S, C, P, T>(
    router: PrefillRouter<K, S, C>,
    now: Generation<P, T>,
    event: GenerationEvent<T>,
    room: u64,
)
    ensures
        now.after_event(router, event, room).1 is None ==> now.after_event(
            router,
            event,
            room,
        ).0 == now,
{
}

/// At an active router a request first enters the prefill phase, with its own tracker, or
/// with one that is made for it. At any other router it leaves at once, as it came or
/// refused.
pub proof fn law_first_steps<K, S, C, P, T>(
    router: PrefillRouter<K, S, C>,
    request_id: String,
    request: PreprocessedRequest<P, T>,
    tracker: Arc<T>,
    room: u64,
)
    ensures
        ({
            let actions = course(router, request_id, request, Seq::empty()).1;
            let later = course(
                router,
                request_id,
                request,
                seq![(GenerationEvent::TrackerCreated(tracker), room)],
            ).1;
            &&& actions.len() == 1
            &&& router.prefill_router is None ==> actions[0] == if router.enforce_disagg {
                GenerationAction::<K, S, P, T>::Fail(
                    GenerateError::Prefill(PrefillError::NotActivated),
                )
            } else {
                GenerationAction::Forward(request)
            }
            &&& router.prefill_router is Some && request.tracker is Some ==> actions[0]
                == GenerationAction::<K, S, P, T>::EnterPhase(
                request.tracker->0,
                RequestPhase::Prefill,
            )
            &&& router.prefill_router is Some && request.tracker is None ==> {
                &&& actions[0] is CreateTracker
                &&& later.last() == GenerationAction::<K, S, P, T>::EnterPhase(
                    tracker,
                    RequestPhase::Prefill,
                )
            }
        }),
{
    let made = seq![(GenerationEvent::TrackerCreated(tracker), room)];
    assert(made.drop_last() =~= Seq::empty());
}

/// In the prefill phase, the endpoint of the worker that the request names is looked up. Where
/// it names none, the router inside is asked for a worker in the way of its mode. Nothing is
/// asked, and the permit is released, where there is no endpoint, or where the router inside
/// is not one of the mode.
pub proof fn law_search_for_a_worker<K, S, C, P, T>(
    router: PrefillRouter<K, S, C>,
    request_id: String,
    request: PreprocessedRequest<P, T>,
    events: Seq<(GenerationEvent<T>, u64)>,
    room: u64,
)
    requires
        enters_prefill(course(router, request_id, request, events).1.last()),
    ensures
        ({
            let later = events.push((GenerationEvent::PhaseEntered, room));
            let next = course(router, request_id, request, later).1.last();
            if router.endpoint_id is None {
                next is ReleasePermit
            } else if wishes(request).prefill_worker_id is Some {
                next == (GenerationAction::<K, S, P, T>::FindEndpoint {
                    endpoint_id: router.endpoint_id->0,
                    worker_id: wishes(request).prefill_worker_id->0,
                })
            } else {
                match (router.router_mode, router.prefill_router) {
                    (RouterMode::KV, Some(InnerPrefillRouter::KvRouter(kv_router))) => {
                        &&& next is FindBestMatch
                        &&& next->FindBestMatch_0 == kv_router
                        &&& next->FindBestMatch_1.token_ids == request.token_ids
                        &&& next->FindBestMatch_1.lora_name == wishes(request).lora_name
                        &&& !next->FindBestMatch_1.update_states
                        &&& next->FindBestMatch_1.context_id is None
                        &&& next->FindBestMatch_1.router_config_override is None
                    },
                    (RouterMode::KV, _) => next is ReleasePermit,
                    (_, Some(InnerPrefillRouter::SimpleRouter(simple_router))) => next
                        == GenerationAction::<K, S, P, T>::PeekNextWorker(simple_router),
                    _ => next is ReleasePermit,
                }
            }
        }),
{
    lemma_latest(router, request_id, request, events);
    lemma_carries(router, request_id, request, events);
    assert(events.push((GenerationEvent::PhaseEntered, room)).drop_last() =~= events);
}

/// Whether `job` is the prefill of `request` for this worker at this rank, told to hand over
/// its results at this host and port, in this room: its hints name the worker and the rank,
/// it stops after its first token, and it is the request in all else, but for a tracker where
/// the request has none.
pub open spec fn is_started_on<P, T>(
    request_id: String,
    request: PreprocessedRequest<P, T>,
    worker_id: u64,
    dp_rank: u32,
    host: String,
    port: u16,
    room: u64,
    job: PrefillJob<P, T>,
) -> bool {
    let prefill = job.request;
    &&& job.request_id == request_id
    &&& job.target_worker == Some(worker_id)
    &&& prefill.routing is Some
    &&& prefill.routing->0.prefill_worker_id == Some(worker_id)
    &&& prefill.routing->0.dp_rank == Some(dp_rank)
    &&& prefill.routing->0.decode_worker_id == wishes(request).decode_worker_id
    &&& prefill.routing->0.lora_name == wishes(request).lora_name
    &&& prefill.bootstrap_info is Some
    &&& prefill.bootstrap_info->0.bootstrap_host == host
    &&& prefill.bootstrap_info->0.bootstrap_port == port
    &&& prefill.bootstrap_info->0.bootstrap_room == room
    &&& prefill.stop_conditions.max_tokens == Some(1u32)
    &&& prefill.token_ids == request.token_ids
    &&& prefill.annotations == request.annotations
    &&& prefill.router_config_override == request.router_config_override
    &&& prefill.prefill_result == request.prefill_result
    &&& prefill.payload == request.payload
    &&& prefill.tracker is Some
    &&& request.tracker is Some ==> prefill.tracker == request.tracker
}

/// `events`, and then the news that the worker hands over its results at this host and
/// port. A router that takes its workers in turn has then moved on.
pub open spec fn reached<K, S, C, T>(
    router: PrefillRouter<K, S, C>,
    events: Seq<(GenerationEvent<T>, u64)>,
    host: String,
    port: u16,
    rooms: (u64, u64),
) -> Seq<(GenerationEvent<T>, u64)> {
    let found = events.push(
        (
            GenerationEvent::EndpointFound(
                Some(
                    DisaggregatedEndpoint {
                        bootstrap_host: Some(host),
                        bootstrap_port: Some(port),
                    },
                ),
            ),
            rooms.0,
        ),
    );
    if takes_turns(router) {
        found.push((GenerationEvent::WorkerSelected, rooms.1))
    } else {
        found
    }
}

/// Whether, after `events`, the endpoint of this worker is looked up, and, once it is found
/// with its host and its port, the prefill is started on that worker at this rank.
pub open spec fn leads_to<K, S, C, P, T>(
    router: PrefillRouter<K, S, C>,
    request_id: String,
    request: PreprocessedRequest<P, T>,
    events: Seq<(GenerationEvent<T>, u64)>,
    worker_id: u64,
    dp_rank: u32,
    host: String,
    port: u16,
    rooms: (u64, u64),
) -> bool {
    let located = course(router, request_id, request, events).1.last();
    let actions = course(
        router,
        request_id,
        request,
        reached(router, events, host, port, rooms),
    ).1;
    &&& router.endpoint_id is Some
    &&& located == (GenerationAction::<K, S, P, T>::FindEndpoint {
        endpoint_id: router.endpoint_id->0,
        worker_id,
    })
    &&& actions.last() is SpawnPrefill
    &&& is_started_on(
        request_id,
        request,
        worker_id,
        dp_rank,
        host,
        port,
        rooms.0,
        actions.last()->SpawnPrefill_0,
    )
    &&& takes_turns(router) ==> actions[actions.len() - 2] == GenerationAction::<
        K,
        S,
        P,
        T,
    >::SelectNextWorker(router.prefill_router->0->SimpleRouter_0)
}

proof fn lemma_leads_to<K, S, C, P, T>(
    router: PrefillRouter<K, S, C>,
    request_id: String,
    request: PreprocessedRequest<P, T>,
    events: Seq<(GenerationEvent<T>, u64)>,
    host: String,
    port: u16,
    rooms: (u64, u64),
)
    requires
        course(router, request_id, request, events).0.stage is Locating,
    ensures
        ({
            let stage = course(router, request_id, request, events).0.stage;
            leads_to(
                router,
                request_id,
                request,
                events,
                stage->Locating_worker_id,
                stage->Locating_dp_rank,
                host,
                port,
                rooms,
            )
        }),
{
    lemma_latest(router, request_id, request, events);
    lemma_carries(router, request_id, request, events);
    let endpoint = DisaggregatedEndpoint { bootstrap_host: Some(host), bootstrap_port: Some(port) };
    let found = events.push((GenerationEvent::EndpointFound(Some(endpoint)), rooms.0));
    let moved = found.push((GenerationEvent::WorkerSelected, rooms.1));
    assert(found.drop_last() =~= events);
    assert(moved.drop_last() =~= found);
    if takes_turns(router) {
        assert(course(router, request_id, request, found).0.stage is Advancing);
        let actions = course(router, request_id, request, moved).1;
        let earlier = course(router, request_id, request, found).1;
        assert(actions[actions.len() - 2] == earlier.last());
    }
}

/// The worker that is found to have the best match gets the prefill, at the rank that was
/// found with it, whatever the request asks for decoding: its endpoint is looked up, and the
/// prefill is started there with hints that name this worker and this rank.
pub proof fn law_best_match_gets_the_prefill<K, S, C, P, T>(
    router: PrefillRouter<K, S, C>,
    request_id: String,
    request: PreprocessedRequest<P, T>,
    events: Seq<(GenerationEvent<T>, u64)>,
    worker_id: u64,
    dp_rank: u32,
    room: u64,
    host: String,
    port: u16,
    rooms: (u64, u64),
)
    requires
        course(router, request_id, request, events).1.last() is FindBestMatch,
    ensures
        leads_to(
            router,
            request_id,
            request,
            events.push((GenerationEvent::BestMatchFound(Some((worker_id, dp_rank))), room)),
            worker_id,
            dp_rank,
            host,
            port,
            rooms,
        ),
{
    lemma_latest(router, request_id, request, events);
    let later = events.push((GenerationEvent::BestMatchFound(Some((worker_id, dp_rank))), room));
    assert(later.drop_last() =~= events);
    lemma_leads_to(router, request_id, request, later, host, port, rooms);
}

/// The next worker of a router that takes them in turn gets the prefill, at rank zero,
/// whatever the request asks for decoding: its endpoint is looked up, and the prefill is
/// started there with hints that name this worker and this rank.
pub proof fn law_next_worker_gets_the_prefill<K, S, C, P, T>(
    router: PrefillRouter<K, S, C>,
    request_id: String,
    request: PreprocessedRequest<P, T>,
    events: Seq<(GenerationEvent<T>, u64)>,
    worker_id: u64,
    room: u64,
    host: String,
    port: u16,
    rooms: (u64, u64),
)
    requires
        course(router, request_id, request, events).1.last() is PeekNextWorker,
    ensures
        leads_to(
            router,
            request_id,
            request,
            events.push((GenerationEvent::NextWorkerPeeked(Some(worker_id)), room)),
            worker_id,
            0,
            host,
            port,
            rooms,
        ),
{
    lemma_latest(router, request_id, request, events);
    let later = events.push((GenerationEvent::NextWorkerPeeked(Some(worker_id)), room));
    assert(later.drop_last() =~= events);
    lemma_leads_to(router, request_id, request, later, host, port, rooms);
}

/// The worker that a request names gets its prefill, at the rank that the request names, or
/// at rank zero: its endpoint is looked up, and the prefill is started there with hints that
/// name this worker and this rank.
pub proof fn law_named_worker_is_started<K, S, C, P, T>(
    router: PrefillRouter<K, S, C>,
    request_id: String,
    request: PreprocessedRequest<P, T>,
    events: Seq<(GenerationEvent<T>, u64)>,
    named: u64,
    room: u64,
    host: String,
    port: u16,
    rooms: (u64, u64),
)
    requires
        enters_prefill(course(router, request_id, request, events).1.last()),
        router.endpoint_id is Some,
        wishes(request).prefill_worker_id == Some(named),
    ensures
        leads_to(
            router,
            request_id,
            request,
            events.push((GenerationEvent::PhaseEntered, room)),
            named,
            if wishes(request).dp_rank is Some {
                wishes(request).dp_rank->0
            } else {
                0
            },
            host,
            port,
            rooms,
        ),
{
    lemma_latest(router, request_id, request, events);
    lemma_carries(router, request_id, request, events);
    let later = events.push((GenerationEvent::PhaseEntered, room));
    assert(later.drop_last() =~= events);
    lemma_leads_to(router, request_id, request, later, host, port, rooms);
}

/// Whether `event` tells that no worker was found, or not where it can be reached: that its
/// endpoint is not known, or has no host, or has no port.
pub open spec fn finds_nothing<T>(event: GenerationEvent<T>) -> bool {
    match event {
        GenerationEvent::BestMatchFound(found) => found is None,
        GenerationEvent::NextWorkerPeeked(found) => found is None,
        GenerationEvent::EndpointFound(None) => true,
        GenerationEvent::EndpointFound(Some(endpoint)) => {
            endpoint.bootstrap_host is None || endpoint.bootstrap_port is None
        },
        _ => false,
    }
}

/// Where no worker is found, or not where it can be reached, the permit is released.
pub proof fn law_unreachable_worker_is_waited_for<K, S, C, P, T>(
    router: PrefillRouter<K, S, C>,
    request_id: String,
    request: PreprocessedRequest<P, T>,
    events: Seq<(GenerationEvent<T>, u64)>,
    event: GenerationEvent<T>,
    room: u64,
)
    requires
        answers(course(router, request_id, request, events).1.last(), event),
        finds_nothing(event),
    ensures
        course(router, request_id, request, events.push((event, room))).1.last() is ReleasePermit,
{
    lemma_latest(router, request_id, request, events);
    assert(events.push((event, room)).drop_last() =~= events);
}

/// After the permit was released, the prefill is called and waited for: under the id of the
/// request, on the worker that the request names, if any, and with the request as it came,
/// but that it stops after its first token, and but for a tracker where it had none.
pub proof fn law_waited_prefill_is_called<K, S, C, P, T>(
    router: PrefillRouter<K, S, C>,
    request_id: String,
    request: PreprocessedRequest<P, T>,
    events: Seq<(GenerationEvent<T>, u64)>,
    room: u64,
)
    requires
        course(router, request_id, request, events).1.last() is ReleasePermit,
    ensures
        ({
            let later = events.push((GenerationEvent::PermitReleased, room));
            let next = course(router, request_id, request, later).1.last();
            let job = next->CallPrefill_0;
            &&& next is CallPrefill
            &&& job.request_id == request_id
            &&& job.target_worker == wishes(request).prefill_worker_id
            &&& job.request.stop_conditions.max_tokens == Some(1u32)
            &&& job.request.token_ids == request.token_ids
            &&& job.request.annotations == request.annotations
            &&& job.request.routing == request.routing
            &&& job.request.router_config_override == request.router_config_override
            &&& job.request.prefill_result == request.prefill_result
            &&& job.request.bootstrap_info == request.bootstrap_info
            &&& job.request.payload == request.payload
            &&& job.request.tracker is Some
            &&& request.tracker is Some ==> job.request.tracker == request.tracker
        }),
{
    lemma_latest(router, request_id, request, events);
    lemma_carries(router, request_id, request, events);
    assert(events.push((GenerationEvent::PermitReleased, room)).drop_last() =~= events);
}

/// The way to decoding of a request that is still wanted after its prefill stage.
pub open spec fn wanted<T>(
    events: Seq<(GenerationEvent<T>, u64)>,
    prefilled: GenerationEvent<T>,
    rooms: (u64, u64, u64),
) -> Seq<(GenerationEvent<T>, u64)> {
    events.push((prefilled, rooms.0)).push(
        (GenerationEvent::ContextChecked { stopped: false, killed: false }, rooms.1),
    ).push((GenerationEvent::PhaseEntered, rooms.2))
}

/// Whether these are `actions` with three more: the request is found to be still wanted,
/// enters the decode phase with the tracker of its prefill, and leaves as `decode`, with
/// that tracker.
pub open spec fn goes_on_to_decoding<K, S, P, T>(
    actions: Seq<GenerationAction<K, S, P, T>>,
    later: Seq<GenerationAction<K, S, P, T>>,
    decode: PreprocessedRequest<P, T>,
) -> bool {
    let tracker = job_of(actions.last()).request.tracker;
    &&& tracker is Some
    &&& decode.tracker == tracker
    &&& later == actions.push(GenerationAction::CheckContext).push(
        GenerationAction::EnterPhase(tracker->0, RequestPhase::Decode),
    ).push(GenerationAction::Forward(decode))
}

/// A request whose prefill was started and that is still wanted goes on to decoding. It is
/// to fetch the results where the prefill was told to hand them over, and has the result of a
/// prefill only if it came with one.
pub proof fn law_started_prefill_leads_to_decoding<K, S, C, P, T>(
    router: PrefillRouter<K, S, C>,
    request_id: String,
    request: PreprocessedRequest<P, T>,
    events: Seq<(GenerationEvent<T>, u64)>,
    rooms: (u64, u64, u64),
)
    requires
        course(router, request_id, request, events).1.last() is SpawnPrefill,
    ensures
        ({
            let actions = course(router, request_id, request, events).1;
            let info = actions.last()->SpawnPrefill_0.request.bootstrap_info;
            let later = course(
                router,
                request_id,
                request,
                wanted(events, GenerationEvent::PrefillSpawned, rooms),
            ).1;
            let decode = later.last()->Forward_0;
            &&& goes_on_to_decoding(actions, later, decode)
            &&& info is Some
            &&& decode.bootstrap_info == info
            &&& decode.prefill_result == request.prefill_result
            &&& is_decode_for(request, None, info, decode)
        }),
{
    lemma_latest(router, request_id, request, events);
    lemma_carries(router, request_id, request, events);
    let spawned = events.push((GenerationEvent::PrefillSpawned, rooms.0));
    let checked = spawned.push(
        (GenerationEvent::ContextChecked { stopped: false, killed: false }, rooms.1),
    );
    let later = checked.push((GenerationEvent::PhaseEntered, rooms.2));
    assert(spawned.drop_last() =~= events);
    assert(checked.drop_last() =~= spawned);
    assert(later.drop_last() =~= checked);
    assert(course(router, request_id, request, spawned).0.stage is Checking);
    assert(course(router, request_id, request, checked).0.stage is EnteringDecode);
}

/// A request whose prefill was waited for and succeeded, and that is still wanted, goes on
/// to decoding with that very result, whatever it holds. It has a place to fetch results from
/// only if it came with one.
pub proof fn law_waited_result_reaches_decoding<K, S, C, P, T>(
    router: PrefillRouter<K, S, C>,
    request_id: String,
    request: PreprocessedRequest<P, T>,
    events: Seq<(GenerationEvent<T>, u64)>,
    prefilled: Prefilled,
    rooms: (u64, u64, u64),
)
    requires
        course(router, request_id, request, events).1.last() is CallPrefill,
    ensures
        ({
            let actions = course(router, request_id, request, events).1;
            let later = course(
                router,
                request_id,
                request,
                wanted(events, GenerationEvent::PrefillFinished(Ok(prefilled)), rooms),
            ).1;
            let decode = later.last()->Forward_0;
            &&& goes_on_to_decoding(actions, later, decode)
            &&& decode.prefill_result is Some
            &&& *decode.prefill_result->0 == prefilled.0
            &&& decode.bootstrap_info == request.bootstrap_info
            &&& is_decode_for(request, Some(prefilled.0), None, decode)
        }),
{
    lemma_latest(router, request_id, request, events);
    lemma_carries(router, request_id, request, events);
    let finished = events.push((GenerationEvent::PrefillFinished(Ok(prefilled)), rooms.0));
    let checked = finished.push(
        (GenerationEvent::ContextChecked { stopped: false, killed: false }, rooms.1),
    );
    let later = checked.push((GenerationEvent::PhaseEntered, rooms.2));
    assert(finished.drop_last() =~= events);
    assert(checked.drop_last() =~= finished);
    assert(later.drop_last() =~= checked);
    assert(course(router, request_id, request, finished).0.stage is Checking);
    assert(course(router, request_id, request, checked).0.stage is EnteringDecode);
}

/// A request whose prefill was waited for and failed is first found to be still wanted or
/// not. Where it is, a router that insists on prefills refuses it with this very failure, and
/// any other router hands it on as it came, with the tracker of its prefill.
pub proof fn law_waited_failure_is_answered<K, S, C, P, T>(
    router: PrefillRouter<K, S, C>,
    request_id: String,
    request: PreprocessedRequest<P, T>,
    events: Seq<(GenerationEvent<T>, u64)>,
    error: PrefillError,
    rooms: (u64, u64),
)
    requires
        course(router, request_id, request, events).1.last() is CallPrefill,
    ensures
        ({
            let actions = course(router, request_id, request, events).1;
            let finished = events.push((GenerationEvent::PrefillFinished(Err(error)), rooms.0));
            let later = course(
                router,
                request_id,
                request,
                finished.push(
                    (GenerationEvent::ContextChecked { stopped: false, killed: false }, rooms.1),
                ),
            ).1;
            &&& later == actions.push(GenerationAction::CheckContext).push(later.last())
            &&& if router.enforce_disagg {
                later.last() == GenerationAction::<K, S, P, T>::Fail(GenerateError::Prefill(error))
            } else {
                later.last() == GenerationAction::<K, S, P, T>::Forward(
                    PreprocessedRequest {
                        tracker: actions.last()->CallPrefill_0.request.tracker,
                        ..request
                    },
                )
            }
        }),
{
    lemma_latest(router, request_id, request, events);
    lemma_carries(router, request_id, request, events);
    let finished = events.push((GenerationEvent::PrefillFinished(Err(error)), rooms.0));
    let later = finished.push(
        (GenerationEvent::ContextChecked { stopped: false, killed: false }, rooms.1),
    );
    assert(finished.drop_last() =~= events);
    assert(later.drop_last() =~= finished);
    assert(course(router, request_id, request, finished).0.stage is Checking);
}

/// A request that is found to be stopped or killed is refused under its id, whatever came
/// before.
pub proof fn law_unwanted_request_is_refused<K, S, C, P, T>(
    router: PrefillRouter<K, S, C>,
    request_id: String,
    request: PreprocessedRequest<P, T>,
    events: Seq<(GenerationEvent<T>, u64)>,
    stopped: bool,
    killed: bool,
    room: u64,
)
    requires
        course(router, request_id, request, events).1.last() is CheckContext,
        stopped || killed,
    ensures
        ({
            let checked = events.push(
                (GenerationEvent::ContextChecked { stopped, killed }, room),
            );
            course(router, request_id, request, checked).1.last() == GenerationAction::<
                K,
                S,
                P,
                T,
            >::Fail(GenerateError::Interrupted(request_id))
        }),
{
    lemma_latest(router, request_id, request, events);
    lemma_carries(router, request_id, request, events);
    let checked = events.push((GenerationEvent::ContextChecked { stopped, killed }, room));
    assert(checked.drop_last() =~= events);
}

/// Whatever the router inside, and with or without a target, the prefill that leaves for its
/// worker is the one that was asked for, and stops after its first token.
pub proof fn law_prefill_leaves_as_asked<K, S, C, P, T>(
    router: PrefillRouter<K, S, C>,
    request_id: String,
    request: PreprocessedRequest<P, T>,
    events: Seq<(GenerationEvent<T>, u64)>,
    inner: InnerPrefillRouter<K, S>,
    target_worker: Option<u64>,
)
    ensures
        ({
            let actions = course(router, request_id, request, events).1;
            forall|i: int|
                0 <= i < actions.len() && is_prefill(#[trigger] actions[i]) ==> {
                    let job = job_of(actions[i]);
                    let leaving = sent(inner.dispatch(job.request, target_worker));
                    &&& leaving == job.request
                    &&& leaving.stop_conditions.max_tokens == Some(1u32)
                    &&& leaving.token_ids == request.token_ids
                    &&& leaving.annotations == request.annotations
                    &&& leaving.payload == request.payload
                }
        }),
{
    lemma_prefill(router, request_id, request, events);
}

/// What the prefill stage gave to decoding, from the end of the prefill until the request
/// enters the decode phase.
pub open spec fn on_record<P, T>(stage: GenerationStage<P, T>) -> Option<PrefillRouting> {
    match stage {
        GenerationStage::Checking { outcome: Ok(routing), .. } => Some(routing),
        GenerationStage::EnteringDecode { routing, .. } => Some(routing),
        _ => None,
    }
}

/// What the prefill stage gave stays on record until the request has entered the decode
/// phase. Of a prefill that was started, it is the worker that it was started on and the
/// place where its results are handed over. Of one that was waited for, it is its result and
/// the worker that it told, if any.
pub proof fn law_prefill_stays_on_record<K, S, C, P, T>(
    router: PrefillRouter<K, S, C>,
    request_id: String,
    request: PreprocessedRequest<P, T>,
    events: Seq<(GenerationEvent<T>, u64)>,
    prefilled: Prefilled,
    rooms: (u64, u64),
)
    ensures
        ({
            let last = course(router, request_id, request, events).1.last();
            let end = if last is SpawnPrefill {
                GenerationEvent::PrefillSpawned
            } else {
                GenerationEvent::PrefillFinished(Ok(prefilled))
            };
            let ended = events.push((end, rooms.0));
            let checked = ended.push(
                (GenerationEvent::ContextChecked { stopped: false, killed: false }, rooms.1),
            );
            let first = on_record(course(router, request_id, request, ended).0.stage);
            let second = on_record(course(router, request_id, request, checked).0.stage);
            &&& last is SpawnPrefill ==> {
                &&& first is Some
                &&& first->0.worker_id == last->SpawnPrefill_0.target_worker
                &&& first->0.bootstrap_info == last->SpawnPrefill_0.request.bootstrap_info
                &&& first->0.result is None
                &&& second == first
            }
            &&& last is CallPrefill ==> {
                &&& first is Some
                &&& prefilled.1 is None ==> first->0.worker_id is None
                &&& prefilled.1 matches Some(worker) ==> first->0.worker_id == Some(worker.0)
                &&& first->0.bootstrap_info is None
                &&& first->0.result == Some(prefilled.0)
                &&& second == first
            }
        }),
{
    lemma_latest(router, request_id, request, events);
    lemma_carries(router, request_id, request, events);
    let last = course(router, request_id, request, events).1.last();
    let end = if last is SpawnPrefill {
        GenerationEvent::PrefillSpawned
    } else {
        GenerationEvent::PrefillFinished(Ok(prefilled))
    };
    let ended = events.push((end, rooms.0));
    let checked = ended.push(
        (GenerationEvent::ContextChecked { stopped: false, killed: false }, rooms.1),
    );
    assert(ended.drop_last() =~= events);
    assert(checked.drop_last() =~= ended);
}

/// A request without a tracker has no phase to enter: once its prefill succeeded and it is
/// still wanted, it leaves for decoding at once, with what the prefill stage gave.
pub proof fn law_untracked_request_goes_on<K, S, C, P, T>(
    router: PrefillRouter<K, S, C>,
    now: Generation<P, T>,
    request: PreprocessedRequest<P, T>,
    routing: PrefillRouting,
    room: u64,
)
    requires
        now.stage == (GenerationStage::Checking { request, outcome: Ok(routing) }),
        now.max_tokens == request.stop_conditions.max_tokens,
        request.tracker is None,
    ensures
        ({
            let wanted = GenerationEvent::ContextChecked { stopped: false, killed: false };
            let (after, action) = now.after_event(router, wanted, room);
            &&& after.stage is Finished
            &&& action is Some
            &&& action->0 is Forward
            &&& is_decode_for(
                request,
                routing.result,
                routing.bootstrap_info,
                action->0->Forward_0,
            )
            &&& action->0->Forward_0.tracker is None
        }),
{
}

/// Without an endpoint nothing is looked up: whatever worker was found, the permit is
/// released.
pub proof fn law_no_endpoint_no_lookup<K, S, C, P, T>(
    router: PrefillRouter<K, S, C>,
    now: Generation<P, T>,
    event: GenerationEvent<T>,
    room: u64,
)
    requires
        router.endpoint_id is None,
        now.stage is EnteringPrefill && event is PhaseEntered || now.stage is Matching
            && event is BestMatchFound || now.stage is Peeking && event is NextWorkerPeeked,
    ensures
        ({
            let action = now.after_event(router, event, room).1;
            action is Some && action->0 is ReleasePermit
        }),
{
}

/// The number of the room is of no account but where the endpoint of the worker was asked
/// for and the answer tells its host and its port.
pub proof fn law_room_counts_only_for_a_place<K, S, C, P, T>(
    router: PrefillRouter<K, S, C>,
    now: Generation<P, T>,
    event: GenerationEvent<T>,
    rooms: (u64, u64),
)
    requires
        !(now.stage is Locating) || !(event is EndpointFound) || finds_nothing(event),
    ensures
        now.after_event(router, event, rooms.0) == now.after_event(router, event, rooms.1),
{
}

} // verus!
