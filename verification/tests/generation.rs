use prefill_router::activation::Activation;
use prefill_router::bootstrap::{build_bootstrap_info, DisaggregatedEndpoint, WorkerChoice};
use prefill_router::error::{GenerateError, PrefillError};
use prefill_router::generation::{Generation, GenerationAction, GenerationEvent};
use prefill_router::protocol::{
    PrefillResult, PreprocessedRequest, RequestPhase, RoutingHints, StopConditions,
};
use prefill_router::router::{Dispatch, EndpointId, InnerPrefillRouter, PrefillRouter, RouterMode};
use std::sync::Arc;

type Router = PrefillRouter<&'static str, &'static str, u8>;
type Request = PreprocessedRequest<u8, u32>;
type Action = GenerationAction<&'static str, &'static str, u8, u32>;
type Event = GenerationEvent<u32>;

fn active(mode: RouterMode, enforce_disagg: bool) -> Router {
    let inner = if mode.is_kv_routing() {
        InnerPrefillRouter::KvRouter(Arc::new("kv"))
    } else {
        InnerPrefillRouter::SimpleRouter(Arc::new("simple"))
    };
    PrefillRouter {
        prefill_router: Some(inner),
        endpoint_id: Some(EndpointId {
            namespace: "ns".to_string(),
            component: "prefill".to_string(),
            name: "generate".to_string(),
        }),
        activation: Activation::Active,
        router_mode: mode,
        enforce_disagg,
        model_name: "model".to_string(),
    }
}

fn request() -> Request {
    PreprocessedRequest {
        token_ids: Arc::new(vec![1, 2, 3]),
        stop_conditions: StopConditions { max_tokens: Some(100) },
        annotations: Arc::new(vec!["query_instance_id:".to_string()]),
        routing: None,
        router_config_override: None,
        prefill_result: None,
        bootstrap_info: None,
        tracker: Some(Arc::new(77)),
        payload: Arc::new(5),
    }
}

fn hinted(worker: u64, dp_rank: Option<u32>) -> Request {
    let mut request = request();
    request.routing = Some(RoutingHints {
        prefill_worker_id: Some(worker),
        decode_worker_id: Some(500),
        dp_rank,
        lora_name: Some("lora".to_string()),
    });
    request
}

fn place() -> Option<DisaggregatedEndpoint> {
    Some(DisaggregatedEndpoint {
        bootstrap_host: Some("10.0.0.1".to_string()),
        bootstrap_port: Some(8998),
    })
}

fn prefilled() -> PrefillResult {
    PrefillResult {
        disaggregated_params: serde_json::Value::Bool(true),
        prompt_tokens_details: None,
    }
}

/// Feeds the events in turn, with room 42, and gives all actions.
fn play(router: &Router, request: Request, events: Vec<Event>) -> Vec<Action> {
    let (mut generation, first) = router.generate("req".to_string(), request);
    let mut actions = vec![first];
    for event in events {
        let (next, action) = generation.step_with_room(router, event, 42);
        generation = next;
        actions.push(action.expect("each event answers the latest action"));
    }
    actions
}

fn wanted() -> Event {
    GenerationEvent::ContextChecked { stopped: false, killed: false }
}

#[test]
fn inactive_router_passes_requests_on() {
    let router: Router = PrefillRouter::disabled(RouterMode::KV, false);
    let actions = play(&router, request(), vec![]);
    match &actions[0] {
        GenerationAction::Forward(sent) => {
            assert_eq!(format!("{:?}", sent), format!("{:?}", request()));
        }
        other => panic!("{:?}", other),
    }
}

#[test]
fn inactive_strict_router_refuses() {
    let router: Router = PrefillRouter::disabled(RouterMode::KV, true);
    let actions = play(&router, request(), vec![]);
    assert!(matches!(
        actions[0],
        GenerationAction::Fail(GenerateError::Prefill(PrefillError::NotActivated))
    ));
}

#[test]
fn tracker_is_made_only_where_there_is_none() {
    let router = active(RouterMode::KV, false);
    let actions = play(&router, request(), vec![]);
    assert!(matches!(
        &actions[0],
        GenerationAction::EnterPhase(tracker, RequestPhase::Prefill) if **tracker == 77
    ));

    let mut untracked = request();
    untracked.tracker = None;
    let made = Arc::new(5);
    let actions = play(&router, untracked, vec![GenerationEvent::TrackerCreated(made)]);
    assert!(matches!(actions[0], GenerationAction::CreateTracker));
    assert!(matches!(
        &actions[1],
        GenerationAction::EnterPhase(tracker, RequestPhase::Prefill) if **tracker == 5
    ));
}

#[test]
fn cache_aware_bootstrap_goes_through() {
    let router = active(RouterMode::KV, true);
    let actions = play(
        &router,
        request(),
        vec![
            GenerationEvent::PhaseEntered,
            GenerationEvent::BestMatchFound(Some((7, 2))),
            GenerationEvent::EndpointFound(place()),
            GenerationEvent::PrefillSpawned,
            wanted(),
            GenerationEvent::PhaseEntered,
        ],
    );
    match &actions[1] {
        GenerationAction::FindBestMatch(kv, query) => {
            assert_eq!(**kv, "kv");
            assert_eq!(*query.token_ids, vec![1, 2, 3]);
            assert!(!query.update_states);
            assert!(query.context_id.is_none());
            assert!(query.router_config_override.is_none());
            assert!(query.lora_name.is_none());
        }
        other => panic!("{:?}", other),
    }
    match &actions[2] {
        GenerationAction::FindEndpoint { endpoint_id, worker_id } => {
            assert_eq!(endpoint_id.name, "generate");
            assert_eq!(*worker_id, 7);
        }
        other => panic!("{:?}", other),
    }
    let job = match &actions[3] {
        GenerationAction::SpawnPrefill(job) => job,
        other => panic!("{:?}", other),
    };
    assert_eq!(job.request_id, "req");
    assert_eq!(job.target_worker, Some(7));
    assert_eq!(job.request.stop_conditions.max_tokens, Some(1));
    let hints = job.request.routing.as_ref().unwrap();
    assert_eq!(hints.prefill_worker_id, Some(7));
    assert_eq!(hints.dp_rank, Some(2));
    let told = job.request.bootstrap_info.as_ref().unwrap();
    assert_eq!(told.bootstrap_host, "10.0.0.1");
    assert_eq!(told.bootstrap_port, 8998);
    assert_eq!(told.bootstrap_room, 42);
    assert!(matches!(actions[4], GenerationAction::CheckContext));
    assert!(matches!(actions[5], GenerationAction::EnterPhase(_, RequestPhase::Decode)));
    match &actions[6] {
        GenerationAction::Forward(decode) => {
            assert_eq!(decode.stop_conditions.max_tokens, Some(100));
            assert!(decode.routing.is_none());
            assert!(decode.prefill_result.is_none());
            let place = decode.bootstrap_info.as_ref().unwrap();
            assert_eq!(place.bootstrap_room, 42);
            assert_eq!(place.bootstrap_host, told.bootstrap_host);
            assert_eq!(place.bootstrap_port, told.bootstrap_port);
            assert_eq!(
                decode.router_config_override.unwrap().overlap_score_weight.map(f64::from_bits),
                Some(0.0)
            );
        }
        other => panic!("{:?}", other),
    }
}

#[test]
fn simple_bootstrap_moves_the_router_on() {
    let router = active(RouterMode::RoundRobin, false);
    let actions = play(
        &router,
        request(),
        vec![
            GenerationEvent::PhaseEntered,
            GenerationEvent::NextWorkerPeeked(Some(9)),
            GenerationEvent::EndpointFound(place()),
            GenerationEvent::WorkerSelected,
            GenerationEvent::PrefillSpawned,
            wanted(),
            GenerationEvent::PhaseEntered,
        ],
    );
    assert!(matches!(actions[1], GenerationAction::PeekNextWorker(_)));
    assert!(matches!(&actions[3], GenerationAction::SelectNextWorker(router) if **router == "simple"));
    match &actions[4] {
        GenerationAction::SpawnPrefill(job) => {
            assert_eq!(job.target_worker, Some(9));
            assert_eq!(job.request.routing.as_ref().unwrap().dp_rank, Some(0));
        }
        other => panic!("{:?}", other),
    }
    assert!(matches!(actions[7], GenerationAction::Forward(_)));
}

#[test]
fn named_worker_is_taken_as_it_is() {
    for mode in [RouterMode::KV, RouterMode::RoundRobin] {
        let router = active(mode, false);
        let actions = play(&router, hinted(31, Some(4)), vec![GenerationEvent::PhaseEntered]);
        assert!(matches!(actions[1], GenerationAction::FindEndpoint { worker_id: 31, .. }));
        let choice = router.choose_worker(&hinted(31, Some(4)), Some(31));
        assert!(matches!(choice, WorkerChoice::Known { worker_id: 31, dp_rank: 4 }));
        let choice = router.choose_worker(&hinted(31, None), Some(31));
        assert!(matches!(choice, WorkerChoice::Known { worker_id: 31, dp_rank: 0 }));
    }
}

#[test]
fn hints_for_decoding_stay_with_the_decode_request() {
    let router = active(RouterMode::KV, false);
    let actions = play(
        &router,
        hinted(31, None),
        vec![
            GenerationEvent::PhaseEntered,
            GenerationEvent::EndpointFound(place()),
            GenerationEvent::PrefillSpawned,
            wanted(),
            GenerationEvent::PhaseEntered,
        ],
    );
    match (&actions[2], actions.last().unwrap()) {
        (GenerationAction::SpawnPrefill(job), GenerationAction::Forward(decode)) => {
            let hints = decode.routing.as_ref().unwrap();
            assert_eq!(hints.decode_worker_id, Some(500));
            assert_eq!(hints.prefill_worker_id, Some(31));
            assert_eq!(hints.dp_rank, None);
            assert_eq!(job.request.routing.as_ref().unwrap().dp_rank, Some(0));
            assert_eq!(*decode.annotations, vec!["query_instance_id:".to_string()]);
            assert_eq!(*job.request.annotations, *decode.annotations);
        }
        other => panic!("{:?}", other),
    }
}

#[test]
fn lora_name_is_part_of_the_query() {
    let router = active(RouterMode::KV, false);
    let mut request = hinted(31, None);
    request.routing.as_mut().unwrap().prefill_worker_id = None;
    match router.choose_worker(&request, None) {
        WorkerChoice::BestMatch(_, query) => assert_eq!(query.lora_name.as_deref(), Some("lora")),
        other => panic!("{:?}", other),
    }
}

#[test]
fn worker_cannot_be_told_ahead_without_a_matching_router() {
    let mut router = active(RouterMode::KV, false);
    router.prefill_router = Some(InnerPrefillRouter::SimpleRouter(Arc::new("simple")));
    assert!(matches!(router.choose_worker(&request(), None), WorkerChoice::Unavailable));
    let mut router = active(RouterMode::Random, false);
    router.prefill_router = Some(InnerPrefillRouter::KvRouter(Arc::new("kv")));
    assert!(matches!(router.choose_worker(&request(), None), WorkerChoice::Unavailable));
    router.prefill_router = None;
    assert!(matches!(router.choose_worker(&request(), Some(1)), WorkerChoice::Unavailable));
    let mut router = active(RouterMode::KV, false);
    router.endpoint_id = None;
    assert!(matches!(router.choose_worker(&request(), Some(1)), WorkerChoice::Unavailable));
}

#[test]
fn prefill_is_waited_for_when_nothing_is_known_ahead() {
    let router = active(RouterMode::KV, false);
    for events in [
        vec![GenerationEvent::PhaseEntered, GenerationEvent::BestMatchFound(None)],
        vec![
            GenerationEvent::PhaseEntered,
            GenerationEvent::BestMatchFound(Some((7, 0))),
            GenerationEvent::EndpointFound(None),
        ],
        vec![
            GenerationEvent::PhaseEntered,
            GenerationEvent::BestMatchFound(Some((7, 0))),
            GenerationEvent::EndpointFound(Some(DisaggregatedEndpoint {
                bootstrap_host: Some("host".to_string()),
                bootstrap_port: None,
            })),
        ],
    ] {
        let mut events = events;
        events.push(GenerationEvent::PermitReleased);
        let actions = play(&router, request(), events);
        assert!(matches!(actions[actions.len() - 2], GenerationAction::ReleasePermit));
        match actions.last().unwrap() {
            GenerationAction::CallPrefill(job) => {
                assert_eq!(job.request_id, "req");
                assert_eq!(job.target_worker, None);
                assert_eq!(job.request.stop_conditions.max_tokens, Some(1));
                assert!(job.request.routing.is_none());
                assert!(job.request.bootstrap_info.is_none());
            }
            other => panic!("{:?}", other),
        }
    }
}

#[test]
fn named_worker_gets_a_prefill_that_is_waited_for() {
    for mode in [RouterMode::RoundRobin, RouterMode::KV] {
        let router = active(mode, false);
        let actions = play(
            &router,
            hinted(31, Some(4)),
            vec![
                GenerationEvent::PhaseEntered,
                GenerationEvent::EndpointFound(None),
                GenerationEvent::PermitReleased,
            ],
        );
        let job = match actions.into_iter().last() {
            Some(GenerationAction::CallPrefill(job)) => job,
            other => panic!("{:?}", other),
        };
        assert_eq!(job.target_worker, Some(31));
        let (_, dispatch) = router.call_prefill(job.request, job.target_worker);
        match dispatch {
            Ok(Dispatch::Direct(simple, sent, worker_id)) => {
                assert_eq!(mode, RouterMode::RoundRobin);
                assert_eq!(*simple, "simple");
                assert_eq!(worker_id, 31);
                assert_eq!(sent.stop_conditions.max_tokens, Some(1));
            }
            Ok(Dispatch::Kv(_, sent)) => {
                assert_eq!(mode, RouterMode::KV);
                assert_eq!(sent.routing.unwrap().prefill_worker_id, Some(31));
            }
            other => panic!("{:?}", other),
        }
    }
}

#[test]
fn tracker_made_on_the_way_follows_the_request() {
    let router = active(RouterMode::KV, false);
    let mut untracked = request();
    untracked.tracker = None;
    let made = Arc::new(5);
    let actions = play(
        &router,
        untracked,
        vec![
            GenerationEvent::TrackerCreated(made.clone()),
            GenerationEvent::PhaseEntered,
            GenerationEvent::BestMatchFound(Some((7, 0))),
            GenerationEvent::EndpointFound(place()),
            GenerationEvent::PrefillSpawned,
            wanted(),
            GenerationEvent::PhaseEntered,
        ],
    );
    let mut seen = 0;
    for action in &actions {
        match action {
            GenerationAction::EnterPhase(tracker, _) => {
                assert!(Arc::ptr_eq(tracker, &made));
                seen += 1;
            }
            GenerationAction::SpawnPrefill(job) => {
                assert!(Arc::ptr_eq(job.request.tracker.as_ref().unwrap(), &made));
                seen += 1;
            }
            GenerationAction::Forward(decode) => {
                assert!(Arc::ptr_eq(decode.tracker.as_ref().unwrap(), &made));
                seen += 1;
            }
            _ => {}
        }
    }
    assert_eq!(seen, 4);
}

#[test]
fn decode_phase_is_not_entered_after_a_failed_prefill() {
    for enforce_disagg in [false, true] {
        let router = active(RouterMode::KV, enforce_disagg);
        let actions = waited(&router, Err(PrefillError::NotActivated), vec![wanted()]);
        assert!(!actions.iter().any(|action| matches!(
            action,
            GenerationAction::EnterPhase(_, RequestPhase::Decode)
        )));
    }
}

#[test]
fn router_that_waits_is_not_moved_on() {
    let router = active(RouterMode::RoundRobin, false);
    let actions = play(
        &router,
        request(),
        vec![
            GenerationEvent::PhaseEntered,
            GenerationEvent::NextWorkerPeeked(Some(9)),
            GenerationEvent::EndpointFound(None),
            GenerationEvent::PermitReleased,
            GenerationEvent::PrefillFinished(Ok((prefilled(), None))),
            wanted(),
            GenerationEvent::PhaseEntered,
        ],
    );
    assert!(!actions
        .iter()
        .any(|action| matches!(action, GenerationAction::SelectNextWorker(_))));
}

fn waited(router: &Router, result: Result<PrefillResult, PrefillError>, rest: Vec<Event>) -> Vec<Action> {
    let mut events = vec![
        GenerationEvent::PhaseEntered,
        GenerationEvent::BestMatchFound(None),
        GenerationEvent::PermitReleased,
        GenerationEvent::PrefillFinished(result.map(|result| (result, Some((6, 1))))),
    ];
    events.extend(rest);
    play(router, request(), events)
}

#[test]
fn result_of_a_prefill_goes_to_decoding() {
    let router = active(RouterMode::KV, true);
    let actions = waited(&router, Ok(prefilled()), vec![wanted(), GenerationEvent::PhaseEntered]);
    match actions.last().unwrap() {
        GenerationAction::Forward(decode) => {
            let result = decode.prefill_result.as_ref().unwrap();
            assert_eq!(result.disaggregated_params, serde_json::Value::Bool(true));
            assert!(decode.bootstrap_info.is_none());
            assert_eq!(decode.stop_conditions.max_tokens, Some(100));
        }
        other => panic!("{:?}", other),
    }
}

#[test]
fn failed_prefill_falls_back_to_decoding_alone() {
    let router = active(RouterMode::KV, false);
    for error in [PrefillError::NotActivated, PrefillError::PrefillError("boom".to_string())] {
        let actions = waited(&router, Err(error), vec![wanted()]);
        match actions.last().unwrap() {
            GenerationAction::Forward(decode) => {
                assert_eq!(format!("{:?}", decode), format!("{:?}", request()));
            }
            other => panic!("{:?}", other),
        }
    }
}

#[test]
fn failed_prefill_fails_a_strict_request() {
    let router = active(RouterMode::KV, true);
    let error = PrefillError::NoDisaggregatedParams("none".to_string());
    let actions = waited(&router, Err(error), vec![wanted()]);
    assert!(matches!(
        actions.last().unwrap(),
        GenerationAction::Fail(GenerateError::Prefill(PrefillError::NoDisaggregatedParams(text)))
            if text == "none"
    ));
}

#[test]
fn stopped_or_killed_requests_do_not_reach_decoding() {
    let router = active(RouterMode::KV, false);
    for (stopped, killed) in [(true, false), (false, true), (true, true)] {
        let checked = GenerationEvent::ContextChecked { stopped, killed };
        let actions = waited(&router, Ok(prefilled()), vec![checked]);
        assert!(matches!(
            actions.last().unwrap(),
            GenerationAction::Fail(GenerateError::Interrupted(id)) if id == "req"
        ));
    }
}

#[test]
fn bootstrap_info_needs_host_and_port() {
    let (worker, rank, info) = build_bootstrap_info(3, 1, place(), 99).unwrap();
    assert_eq!((worker, rank), (3, 1));
    assert_eq!(info.bootstrap_host, "10.0.0.1");
    assert_eq!(info.bootstrap_port, 8998);
    assert_eq!(info.bootstrap_room, 99);
    assert!(build_bootstrap_info(3, 1, None, 99).is_none());
    let no_host = DisaggregatedEndpoint { bootstrap_host: None, bootstrap_port: Some(1) };
    assert!(build_bootstrap_info(3, 1, Some(no_host), 99).is_none());
}

#[test]
fn rooms_are_drawn_anew() {
    let router = active(RouterMode::KV, false);
    let mut rooms: Vec<u64> = Vec::new();
    for _ in 0..8 {
        let (generation, _): (Generation<u8, u32>, Action) =
            router.generate("req".to_string(), hinted(1, None));
        let (generation, _) = generation.step(&router, GenerationEvent::PhaseEntered);
        let (_, action) = generation.step(&router, GenerationEvent::EndpointFound(place()));
        match action {
            Some(GenerationAction::SpawnPrefill(job)) => {
                rooms.push(job.request.bootstrap_info.unwrap().bootstrap_room);
            }
            other => panic!("{:?}", other),
        }
    }
    rooms.sort();
    rooms.dedup();
    assert!(rooms.len() > 1);
}

#[test]
fn unasked_events_leave_a_request_where_it_is() {
    let router = active(RouterMode::KV, false);
    let (generation, _): (Generation<u8, u32>, Action) =
        router.generate("req".to_string(), request());
    let before = format!("{:?}", generation);
    let (generation, action) = generation.step(&router, GenerationEvent::PermitReleased);
    assert!(action.is_none());
    assert_eq!(format!("{:?}", generation), before);
}

#[test]
fn prefills_begin_at_the_router_inside() {
    let router = active(RouterMode::RoundRobin, false);
    let (_, dispatch) = router.call_prefill(request(), None);
    assert!(matches!(dispatch, Ok(Dispatch::Simple(..))));
    let (_, dispatch) = router.call_prefill(hinted(31, None), Some(31));
    assert!(matches!(dispatch, Ok(Dispatch::Direct(_, _, 31))));
    let (_, dispatch) = router.spawn_prefill_task(request(), Some(4));
    assert!(matches!(dispatch, Ok(Dispatch::Direct(_, _, 4))));
    let disabled: Router = PrefillRouter::disabled(RouterMode::KV, false);
    assert!(matches!(disabled.call_prefill(request(), None).1, Err(PrefillError::NotActivated)));
    assert!(matches!(
        disabled.spawn_prefill_task(request(), Some(4)).1,
        Err(PrefillError::NotActivated)
    ));
}
