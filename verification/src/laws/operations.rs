//! What holds of the single operations that the courses are made of.

use crate::bootstrap::{meeting_place, DisaggregatedEndpoint, WorkerChoice};
use crate::error::{GenerateError, PrefillError, PrefillErrorView};
use crate::execution::{
    action_view, named_number, named_worker, outcome, result_view, worker_and_rank, ExecutionAction,
    ExecutionActionView, Prefilled,
};
use crate::generation::{waited_for, Generation, GenerationEvent};
use crate::json::{json_content, JsonContent};
use crate::protocol::{
    Annotated, BootstrapInfo, PrefillResult, PreprocessedRequest, PromptTokensDetails,
    RouterConfigOverride, RoutingHints,
};
use crate::router::{Dispatch, InnerPrefillRouter, PrefillRouter};
use serde_json::Value;
use vstd::prelude::*;

verus! {

/// The request that leaves with a dispatch.
pub open spec fn sent<K, S, P, T>(dispatch: Dispatch<K, S, P, T>) -> PreprocessedRequest<P, T> {
    match dispatch {
        Dispatch::Kv(_, request) => request,
        Dispatch::Direct(_, request, _) => request,
        Dispatch::Simple(_, request) => request,
    }
}

/// Whatever the router and the target, the request that leaves is the one that was handed
/// in, and it leaves through that router. It leaves straight for a worker exactly where a
/// simple router was given a target, and that worker is the target.
pub proof fn law_dispatch_sends_what_it_was_given<K, S, P, T>(
    inner: InnerPrefillRouter<K, S>,
    request: PreprocessedRequest<P, T>,
    target_worker: Option<u64>,
)
    ensures
        sent(inner.dispatch(request, target_worker)) == request,
        match inner.dispatch(request, target_worker) {
            Dispatch::Kv(router, _) => inner == InnerPrefillRouter::<K, S>::KvRouter(router),
            Dispatch::Direct(router, _, worker_id) => {
                &&& inner == InnerPrefillRouter::<K, S>::SimpleRouter(router)
                &&& target_worker == Some(worker_id)
            },
            Dispatch::Simple(router, _) => {
                &&& inner == InnerPrefillRouter::<K, S>::SimpleRouter(router)
                &&& target_worker is None
            },
        },
{
}

/// A simple router has a next worker, and no other router has.
pub proof fn law_only_simple_routers_take_turns<K, S>(inner: InnerPrefillRouter<K, S>)
    ensures
        inner.simple() is Some <==> inner is SimpleRouter,
        inner.simple() matches Some(router) ==> inner == InnerPrefillRouter::<
            K,
            S,
        >::SimpleRouter(router),
{
}

/// The hints and settings of a request are those that it came with; where it came with
/// none, every single one is absent.
pub proof fn law_hints_and_settings_are_those_given<P, T>(request: PreprocessedRequest<P, T>)
    ensures
        request.routing matches Some(hints) ==> request.hints() == hints,
        request.routing is None ==> {
            &&& request.hints().prefill_worker_id is None
            &&& request.hints().decode_worker_id is None
            &&& request.hints().dp_rank is None
            &&& request.hints().lora_name is None
        },
        request.router_config_override matches Some(settings) ==> request.settings() == settings,
        request.router_config_override is None ==> {
            &&& request.settings().overlap_score_weight is None
            &&& request.settings().router_temperature is None
        },
        RoutingHints::none().prefill_worker_id is None,
        RoutingHints::none().decode_worker_id is None,
        RoutingHints::none().dp_rank is None,
        RoutingHints::none().lora_name is None,
        RouterConfigOverride::none().overlap_score_weight is None,
        RouterConfigOverride::none().router_temperature is None,
{
}

/// A prefill request asks for one token, and is the request in all else.
pub proof fn law_prefill_asks_for_one_token<P, T>(request: PreprocessedRequest<P, T>)
    ensures
        request.as_prefill().stop_conditions.max_tokens == Some(1u32),
        request.as_prefill().token_ids == request.token_ids,
        request.as_prefill().annotations == request.annotations,
        request.as_prefill().routing == request.routing,
        request.as_prefill().router_config_override == request.router_config_override,
        request.as_prefill().prefill_result == request.prefill_result,
        request.as_prefill().bootstrap_info == request.bootstrap_info,
        request.as_prefill().tracker == request.tracker,
        request.as_prefill().payload == request.payload,
{
}

/// A bootstrapped request names its worker, the rank of the worker and the place where to
/// hand over the results, and is the request in all else, down to the other hints.
pub proof fn law_bootstrap_names_worker_rank_and_place<P, T>(
    request: PreprocessedRequest<P, T>,
    worker_id: u64,
    dp_rank: u32,
    info: BootstrapInfo,
)
    ensures
        ({
            let routed = request.bootstrapped(worker_id, dp_rank, info);
            &&& routed.routing is Some
            &&& routed.routing->0.prefill_worker_id == Some(worker_id)
            &&& routed.routing->0.dp_rank == Some(dp_rank)
            &&& match request.routing {
                Some(hints) => {
                    &&& routed.routing->0.decode_worker_id == hints.decode_worker_id
                    &&& routed.routing->0.lora_name == hints.lora_name
                },
                None => {
                    &&& routed.routing->0.decode_worker_id is None
                    &&& routed.routing->0.lora_name is None
                },
            }
            &&& routed.bootstrap_info == Some(info)
            &&& routed.token_ids == request.token_ids
            &&& routed.stop_conditions == request.stop_conditions
            &&& routed.annotations == request.annotations
            &&& routed.router_config_override == request.router_config_override
            &&& routed.prefill_result == request.prefill_result
            &&& routed.tracker == request.tracker
            &&& routed.payload == request.payload
        }),
{
}

/// A decode request has the result of the prefill, if there is one, and the place where to
/// fetch it, if there is one; otherwise it has those that the request came with. It has
/// the limit that it was given, no weight on the overlap, and is the request in all else,
/// down to the other settings.
pub proof fn law_decode_takes_results_and_place<P, T>(
    request: PreprocessedRequest<P, T>,
    max_tokens: Option<u32>,
    result: Option<PrefillResult>,
    info: Option<BootstrapInfo>,
)
    ensures
        ({
            let decode = request.as_decode(max_tokens, result, info);
            &&& decode.stop_conditions.max_tokens == max_tokens
            &&& match result {
                Some(given) => decode.prefill_result is Some && *decode.prefill_result->0 == given,
                None => decode.prefill_result == request.prefill_result,
            }
            &&& match info {
                Some(_) => decode.bootstrap_info == info,
                None => decode.bootstrap_info == request.bootstrap_info,
            }
            &&& decode.router_config_override is Some
            &&& decode.router_config_override->0.overlap_score_weight == Some(0u64)
            &&& decode.router_config_override->0.router_temperature == (
            match request.router_config_override {
                Some(settings) => settings.router_temperature,
                None => None,
            })
            &&& decode.token_ids == request.token_ids
            &&& decode.annotations == request.annotations
            &&& decode.routing == request.routing
            &&& decode.tracker == request.tracker
            &&& decode.payload == request.payload
        }),
{
}

/// The details that an item holds are those in the usage that its output reports, and
/// there are none where any of these is missing.
pub proof fn law_details_are_those_reported(item: Annotated)
    ensures
        item.data is None ==> item.details() is None,
        item.data matches Some(output) ==> (output.completion_usage is None ==> item.details()
            is None),
        item.data matches Some(output) ==> (output.completion_usage matches Some(usage)
            ==> item.details() == usage.prompt_tokens_details),
{
}

/// There is a place to hand over results exactly where a worker told its host and its
/// port. It is that host, that port and the given room.
pub proof fn law_place_has_host_port_and_room(endpoint: Option<DisaggregatedEndpoint>, room: u64)
    ensures
        meeting_place(endpoint, room) is Some <==> {
            &&& endpoint is Some
            &&& endpoint->0.bootstrap_host is Some
            &&& endpoint->0.bootstrap_port is Some
        },
        meeting_place(endpoint, room) matches Some(place) ==> {
            &&& endpoint->0.bootstrap_host == Some(place.bootstrap_host)
            &&& endpoint->0.bootstrap_port == Some(place.bootstrap_port)
            &&& place.bootstrap_room == room
        },
{
}

/// A room is needed exactly where the endpoint of the worker was asked for and the answer
/// tells its host and its port.
pub proof fn law_room_is_drawn_for_a_place<P, T>(
    generation: Generation<P, T>,
    event: GenerationEvent<T>,
)
    ensures
        generation.reaches_worker(event) <==> {
            &&& generation.stage is Locating
            &&& event is EndpointFound
            &&& event->EndpointFound_0 is Some
            &&& event->EndpointFound_0->0.bootstrap_host is Some
            &&& event->EndpointFound_0->0.bootstrap_port is Some
        },
{
}

/// The worker for a prefill is the preselected one, at the rank that the request asks for
/// or at rank zero, whatever the mode. Without a preselected worker, cache-aware routing
/// asks its router for the best match to these tokens under this adapter, without counting
/// the request anywhere, and other routing takes the next worker of its router. Nothing is
/// known ahead exactly where there is no endpoint or no router, or where no worker is
/// preselected and the router is not one of the mode.
pub proof fn law_worker_is_chosen_by_mode<K, S, C, P, T>(
    router: PrefillRouter<K, S, C>,
    request: PreprocessedRequest<P, T>,
    preselected: Option<u64>,
)
    ensures
        match router.choice(request, preselected) {
            WorkerChoice::Unavailable => {
                ||| router.endpoint_id is None
                ||| router.prefill_router is None
                ||| preselected is None && (router.prefill_router->0 is KvRouter <==> !(
                router.router_mode is KV))
            },
            WorkerChoice::Known { worker_id, dp_rank } => {
                &&& router.endpoint_id is Some
                &&& router.prefill_router is Some
                &&& preselected == Some(worker_id)
                &&& dp_rank == if request.routing is Some && request.routing->0.dp_rank is Some {
                    request.routing->0.dp_rank->0
                } else {
                    0
                }
            },
            WorkerChoice::BestMatch(kv_router, query) => {
                &&& router.endpoint_id is Some
                &&& preselected is None
                &&& router.router_mode is KV
                &&& router.prefill_router == Some(InnerPrefillRouter::<K, S>::KvRouter(kv_router))
                &&& query.token_ids == request.token_ids
                &&& query.lora_name == if request.routing is Some {
                    request.routing->0.lora_name
                } else {
                    None
                }
                &&& !query.update_states
                &&& query.context_id is None
                &&& query.router_config_override is None
            },
            WorkerChoice::Next(simple_router) => {
                &&& router.endpoint_id is Some
                &&& preselected is None
                &&& !(router.router_mode is KV)
                &&& router.prefill_router == Some(
                    InnerPrefillRouter::<K, S>::SimpleRouter(simple_router),
                )
            },
        },
{
}

/// A worker and its rank are told exactly where a worker is told. The worker is the one
/// told; the rank is the remainder of the rank told by two to the power of 32, and zero
/// where none is told.
pub proof fn law_rank_wraps_and_defaults(worker_id: Option<u64>, dp_rank: Option<u64>)
    ensures
        worker_and_rank(worker_id, dp_rank) is Some <==> worker_id is Some,
        worker_and_rank(worker_id, dp_rank) matches Some(told) ==> {
            &&& worker_id == Some(told.0)
            &&& dp_rank is None ==> told.1 == 0
            &&& dp_rank matches Some(rank) ==> told.1 as int == rank as int % 4294967296
        },
{
}

/// The member `key` of an object.
pub open spec fn has_member(value: Value, key: Seq<char>, member: Value) -> bool {
    match json_content(value) {
        JsonContent::Object(members) => members.contains_key(key) && members[key] == member,
        _ => false,
    }
}

/// Whether the member `key` of `value` is the number `number`.
pub open spec fn has_number(value: Value, key: Seq<char>, number: u64) -> bool {
    exists|member: Value|
        #[trigger] has_member(value, key, member) && json_content(member) == JsonContent::Integer(
            number as int,
        )
}

proof fn lemma_named_number(value: Value, key: Seq<char>)
    ensures
        named_number(value, key) is Some <==> exists|number: u64|
            #[trigger] has_number(value, key, number),
        forall|number: u64|
            #[trigger] has_number(value, key, number) <==> named_number(
                value,
                key,
            ) == Some(number),
{
    let told = named_number(value, key);
    if json_content(value) is Object {
        let members = json_content(value)->Object_0;
        if members.contains_key(key) {
            assert(has_member(value, key, members[key]));
        }
    }
    assert forall|number: u64| #[trigger] has_number(value, key, number) <==> told == Some(
        number,
    ) by {
        if told == Some(number) {
            let members = json_content(value)->Object_0;
            assert(has_member(value, key, members[key]));
        }
    }
    if told is Some {
        assert(has_number(value, key, told->0));
    }
}

/// Whether `worker` is what the parameters of a response tell of the worker of the prefill:
/// the number `prefill_worker_id` in the object `worker_id`, or nothing where there is no
/// such number. The rank is the number `prefill_dp_rank` beside it, by its remainder by two
/// to the power of 32, and zero where there is no such number.
pub open spec fn tells_worker(params: Value, worker: Option<(u64, u32)>) -> bool {
    match worker {
        Some(told) => exists|ids: Value|
            #[trigger] has_member(params, "worker_id"@, ids) && has_number(
                ids,
                "prefill_worker_id"@,
                told.0,
            ) && (forall|rank: u64|
                #[trigger] has_number(ids, "prefill_dp_rank"@, rank) ==> told.1 as int
                    == rank as int % 4294967296) && ((forall|rank: u64|
                !#[trigger] has_number(ids, "prefill_dp_rank"@, rank)) ==> told.1 == 0),
        None => forall|ids: Value, id: u64|
            !(#[trigger] has_member(params, "worker_id"@, ids) && #[trigger] has_number(
                ids,
                "prefill_worker_id"@,
                id,
            )),
    }
}

/// The worker that the parameters of a response name is the one that they tell.
pub proof fn law_worker_is_read_from_the_response(params: Value)
    ensures
        tells_worker(params, named_worker(params)),
{
    let worker = named_worker(params);
    if json_content(params) is Object && json_content(params)->Object_0.contains_key(
        "worker_id"@,
    ) {
        let ids = json_content(params)->Object_0["worker_id"@];
        assert(has_member(params, "worker_id"@, ids));
        lemma_named_number(ids, "prefill_worker_id"@);
        lemma_named_number(ids, "prefill_dp_rank"@);
        if worker is Some {
            let told = worker->0;
            assert(has_number(ids, "prefill_worker_id"@, told.0));
            let rank = named_number(ids, "prefill_dp_rank"@);
            if rank is Some {
                assert(has_number(ids, "prefill_dp_rank"@, rank->0));
            }
        }
    }
}

/// A prefill succeeds exactly where its first output reports no error, has data, and has
/// parameters in it. It then gives these parameters, the details that it was handed, and
/// the worker that the parameters name. A failure tells which of the three was missing.
pub proof fn law_good_first_output_is_success(
    first: Annotated,
    details: Option<PromptTokensDetails>,
)
    ensures
        match outcome(first, details) {
            Ok(prefilled) => {
                &&& first.error is None
                &&& first.data is Some
                &&& first.data->0.disaggregated_params == Some(prefilled.0.disaggregated_params)
                &&& prefilled.0.prompt_tokens_details == details
                &&& tells_worker(prefilled.0.disaggregated_params, prefilled.1)
            },
            Err(PrefillErrorView::PrefillError(text)) => {
                &&& first.error is Some
                &&& text == "Prefill router returned error in output: "@ + first.error->0@
            },
            Err(PrefillErrorView::NoDisaggregatedParams(text)) => {
                &&& first.error is None
                &&& first.data is None ==> text == "Prefill router output has no data field"@
                &&& first.data is Some ==> first.data->0.disaggregated_params is None && text
                    == "Prefill router output missing disaggregated_params"@
            },
            Err(PrefillErrorView::NotActivated) => false,
        },
{
    if outcome(first, details) is Ok {
        law_worker_is_read_from_the_response(first.data->0.disaggregated_params->0);
    }
}

/// A prefill that was waited for hands on what it gave: its result, its worker, and no
/// place, or its failure.
pub proof fn law_waited_result_is_handed_on(result: Result<Prefilled, PrefillError>)
    ensures
        match (result, waited_for(result)) {
            (Ok(prefilled), Ok(routing)) => {
                &&& routing.result == Some(prefilled.0)
                &&& routing.bootstrap_info is None
                &&& prefilled.1 is None ==> routing.worker_id is None
                &&& prefilled.1 matches Some(worker) ==> routing.worker_id == Some(worker.0)
            },
            (Err(error), Err(same)) => error == same,
            _ => false,
        },
{
}

/// No two errors look alike: their views tell their kinds and their texts.
pub proof fn law_views_keep_kind_and_text(
    error: PrefillError,
    prefilled: Prefilled,
    text: String,
)
    ensures
        PrefillError::NotActivated@ == PrefillErrorView::NotActivated,
        PrefillError::PrefillError(text)@ == PrefillErrorView::PrefillError(text@),
        PrefillError::NoDisaggregatedParams(text)@ == PrefillErrorView::NoDisaggregatedParams(
            text@,
        ),
        result_view(Ok(prefilled)) == Ok::<Prefilled, PrefillErrorView>(prefilled),
        result_view(Err(error)) == Err::<Prefilled, PrefillErrorView>(error@),
        action_view(None) is None,
        action_view(Some(ExecutionAction::NextOutput)) == Some(ExecutionActionView::NextOutput),
        action_view(Some(ExecutionAction::ReleasePermit)) == Some(
            ExecutionActionView::ReleasePermit,
        ),
        action_view(Some(ExecutionAction::Finish(Ok(prefilled)))) == Some(
            ExecutionActionView::Finish(Ok(prefilled)),
        ),
        action_view(Some(ExecutionAction::Finish(Err(error)))) == Some(
            ExecutionActionView::Finish(Err(error@)),
        ),
{
}

/// The sentence for an error says what failed and ends with the text of the error, whole.
pub proof fn law_sentences_hold_the_text(error: PrefillError, text: Seq<char>, id: String)
    ensures
        PrefillErrorView::NotActivated.sentence() == "Prefill router not yet activated"@,
        PrefillErrorView::PrefillError(text).sentence() == "Prefill execution failed: "@ + text,
        PrefillErrorView::NoDisaggregatedParams(text).sentence()
            == "No disaggregated params in prefill response: "@ + text,
        GenerateError::Prefill(error).sentence() == error@.sentence(),
        GenerateError::Interrupted(id).sentence() == "Context id "@ + id@
            + " is stopped or killed"@,
{
}

} // verus!
