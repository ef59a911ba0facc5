use prefill_router::activation::{Activation, ActivationAction, ActivationEvent, WorkerType};
use prefill_router::error::{GenerateError, PrefillError};
use prefill_router::generation::GenerationAction;
use prefill_router::protocol::{PreprocessedRequest, StopConditions};
use prefill_router::router::{EndpointId, InnerPrefillRouter, PrefillRouter, RouterMode};
use std::sync::Arc;

type Router = PrefillRouter<&'static str, &'static str, u8>;
type Event = ActivationEvent<&'static str, &'static str>;

fn endpoint(name: &str) -> EndpointId {
    EndpointId {
        namespace: "ns".to_string(),
        component: "prefill".to_string(),
        name: name.to_string(),
    }
}

fn waiting(mode: RouterMode) -> Router {
    PrefillRouter::new(mode, 16, Some(9), true, "model".to_string())
}

#[test]
fn only_kv_mode_is_kv_routing() {
    assert!(RouterMode::KV.is_kv_routing());
    assert!(!RouterMode::RoundRobin.is_kv_routing());
    assert!(!RouterMode::Random.is_kv_routing());
    assert!(!RouterMode::Direct.is_kv_routing());
}

#[test]
fn new_router_waits() {
    let router = waiting(RouterMode::KV);
    assert!(router.prefill_router.is_none());
    assert!(router.endpoint_id.is_none());
    assert!(router.enforce_disagg);
    assert_eq!(router.model_name, "model");
    assert!(matches!(
        router.activation,
        Activation::Waiting { kv_cache_block_size: 16, kv_router_config: Some(9) }
    ));
}

#[test]
fn disabled_router_never_activates() {
    let mut router: Router = PrefillRouter::disabled(RouterMode::Random, false);
    assert_eq!(router.model_name, "");
    let events: Vec<Event> = vec![
        ActivationEvent::EndpointReceived(endpoint("generate")),
        ActivationEvent::WatcherStarted(Ok(())),
        ActivationEvent::ClientMade(Ok(())),
        ActivationEvent::SimpleRouterMade(Ok(Arc::new("router"))),
        ActivationEvent::Cancelled,
    ];
    for event in events {
        assert!(router.on_activation_event(event).is_none());
    }
    assert!(router.prefill_router.is_none());
    assert!(matches!(router.activation, Activation::Disabled));
}

#[test]
fn cache_aware_activation_goes_step_by_step() {
    let mut router = waiting(RouterMode::KV);
    let action = router.on_activation_event(ActivationEvent::EndpointReceived(endpoint("generate")));
    assert!(matches!(action, Some(ActivationAction::StartWatcher)));
    assert_eq!(router.endpoint_id.as_ref().unwrap().name, "generate");
    let action = router.on_activation_event(ActivationEvent::WatcherStarted(Ok(())));
    assert!(matches!(
        action,
        Some(ActivationAction::MakeChooser {
            kv_cache_block_size: 16,
            kv_router_config: Some(9),
            worker_type: WorkerType::Prefill,
        })
    ));
    let action = router.on_activation_event(ActivationEvent::ChooserMade(Ok(())));
    assert!(matches!(action, Some(ActivationAction::FindMonitor(name)) if name == "model"));
    let action = router.on_activation_event(ActivationEvent::MonitorLookedUp(true));
    assert!(matches!(action, Some(ActivationAction::TellMonitor)));
    let action = router.on_activation_event(ActivationEvent::MonitorTold);
    assert!(matches!(action, Some(ActivationAction::MakeRouter(RouterMode::KV))));
    assert!(router.prefill_router.is_none());
    let action = router.on_activation_event(ActivationEvent::KvRouterMade(Ok(Arc::new("kv"))));
    assert!(matches!(action, Some(ActivationAction::Complete)));
    assert!(matches!(
        router.prefill_router,
        Some(InnerPrefillRouter::KvRouter(inner)) if *inner == "kv"
    ));
    assert!(matches!(router.activation, Activation::Active));
}

#[test]
fn simple_activation_uses_the_mode_of_the_router() {
    let mut router = waiting(RouterMode::RoundRobin);
    router.on_activation_event(ActivationEvent::EndpointReceived(endpoint("generate")));
    let action = router.on_activation_event(ActivationEvent::WatcherStarted(Ok(())));
    assert!(matches!(action, Some(ActivationAction::MakeClient)));
    router.on_activation_event(ActivationEvent::ClientMade(Ok(())));
    let action = router.on_activation_event(ActivationEvent::MonitorLookedUp(false));
    assert!(matches!(action, Some(ActivationAction::MakeRouter(RouterMode::RoundRobin))));
    assert!(router.on_activation_event(ActivationEvent::KvRouterMade(Ok(Arc::new("kv")))).is_none());
    let action = router.on_activation_event(ActivationEvent::SimpleRouterMade(Ok(Arc::new("simple"))));
    assert!(matches!(action, Some(ActivationAction::Complete)));
    assert!(matches!(router.prefill_router, Some(InnerPrefillRouter::SimpleRouter(_))));
}

#[test]
fn active_router_stays_as_it_is() {
    let mut router = waiting(RouterMode::Random);
    router.on_activation_event(ActivationEvent::EndpointReceived(endpoint("first")));
    router.on_activation_event(ActivationEvent::WatcherStarted(Ok(())));
    router.on_activation_event(ActivationEvent::ClientMade(Ok(())));
    router.on_activation_event(ActivationEvent::MonitorLookedUp(false));
    router.on_activation_event(ActivationEvent::SimpleRouterMade(Ok(Arc::new("first"))));
    assert!(router
        .on_activation_event(ActivationEvent::SimpleRouterMade(Ok(Arc::new("second"))))
        .is_none());
    assert!(router
        .on_activation_event(ActivationEvent::EndpointReceived(endpoint("second")))
        .is_none());
    assert_eq!(router.endpoint_id.as_ref().unwrap().name, "first");
    assert!(matches!(
        router.prefill_router,
        Some(InnerPrefillRouter::SimpleRouter(inner)) if *inner == "first"
    ));
}

#[test]
fn first_router_in_place_stays() {
    let mut router = waiting(RouterMode::Random);
    router.activation = Activation::MakingRouter;
    router.prefill_router = Some(InnerPrefillRouter::SimpleRouter(Arc::new("first")));
    router.on_activation_event(ActivationEvent::SimpleRouterMade(Ok(Arc::new("second"))));
    assert!(matches!(
        router.prefill_router,
        Some(InnerPrefillRouter::SimpleRouter(inner)) if *inner == "first"
    ));
}

#[test]
fn failed_steps_end_the_activation() {
    let mut router = waiting(RouterMode::KV);
    router.on_activation_event(ActivationEvent::EndpointReceived(endpoint("generate")));
    let action = router.on_activation_event(ActivationEvent::WatcherStarted(Err("no etcd".to_string())));
    assert!(matches!(action, Some(ActivationAction::Fail(text)) if text == "no etcd"));
    assert!(matches!(&router.activation, Activation::Failed(text) if text == "no etcd"));
    assert!(router.prefill_router.is_none());
    assert!(router.on_activation_event(ActivationEvent::ChooserMade(Ok(()))).is_none());

    let mut router = waiting(RouterMode::KV);
    router.on_activation_event(ActivationEvent::EndpointReceived(endpoint("generate")));
    router.on_activation_event(ActivationEvent::WatcherStarted(Ok(())));
    let action = router.on_activation_event(ActivationEvent::ChooserMade(Err("no chooser".to_string())));
    assert!(matches!(action, Some(ActivationAction::Fail(text)) if text == "no chooser"));

    let mut router = waiting(RouterMode::Direct);
    router.on_activation_event(ActivationEvent::EndpointReceived(endpoint("generate")));
    router.on_activation_event(ActivationEvent::WatcherStarted(Ok(())));
    router.on_activation_event(ActivationEvent::ClientMade(Ok(())));
    router.on_activation_event(ActivationEvent::MonitorLookedUp(false));
    let action = router.on_activation_event(ActivationEvent::SimpleRouterMade(Err("no router".to_string())));
    assert!(matches!(action, Some(ActivationAction::Fail(text)) if text == "no router"));
    assert!(router.prefill_router.is_none());
}

#[test]
fn failed_activation_leaves_requests_without_prefill() {
    for enforce_disagg in [false, true] {
        let mut router: Router =
            PrefillRouter::new(RouterMode::Random, 16, None, enforce_disagg, "model".to_string());
        router.on_activation_event(ActivationEvent::EndpointReceived(endpoint("generate")));
        router.on_activation_event(ActivationEvent::WatcherStarted(Err("no etcd".to_string())));
        let more: Vec<Event> = vec![
            ActivationEvent::EndpointReceived(endpoint("again")),
            ActivationEvent::WatcherStarted(Ok(())),
            ActivationEvent::SimpleRouterMade(Ok(Arc::new("late"))),
        ];
        for event in more {
            assert!(router.on_activation_event(event).is_none());
        }
        let request: PreprocessedRequest<u8, u8> = PreprocessedRequest {
            token_ids: Arc::new(vec![1]),
            stop_conditions: StopConditions { max_tokens: Some(9) },
            annotations: Arc::new(vec![]),
            routing: None,
            router_config_override: None,
            prefill_result: None,
            bootstrap_info: None,
            tracker: None,
            payload: Arc::new(0),
        };
        match router.generate("req".to_string(), request).1 {
            GenerationAction::Forward(sent) => {
                assert!(!enforce_disagg);
                assert_eq!(sent.stop_conditions.max_tokens, Some(9));
                assert!(sent.tracker.is_none());
            }
            GenerationAction::Fail(GenerateError::Prefill(PrefillError::NotActivated)) => {
                assert!(enforce_disagg);
            }
            other => panic!("{:?}", other),
        }
    }
}

#[test]
fn wait_ends_when_the_endpoint_cannot_come() {
    let closed: Event = ActivationEvent::ChannelClosed;
    let cancelled: Event = ActivationEvent::Cancelled;
    for event in [closed, cancelled] {
        let mut router = waiting(RouterMode::KV);
        assert!(matches!(router.on_activation_event(event), Some(ActivationAction::Stop)));
        assert!(router
            .on_activation_event(ActivationEvent::EndpointReceived(endpoint("late")))
            .is_none());
        assert!(router.endpoint_id.is_none());
        assert!(matches!(router.activation, Activation::Stopped));
    }
}

#[test]
fn cancelling_does_not_interrupt_steps_under_way() {
    let mut router = waiting(RouterMode::KV);
    router.on_activation_event(ActivationEvent::EndpointReceived(endpoint("generate")));
    assert!(router.on_activation_event(ActivationEvent::Cancelled).is_none());
    let action = router.on_activation_event(ActivationEvent::WatcherStarted(Ok(())));
    assert!(matches!(action, Some(ActivationAction::MakeChooser { .. })));
}

#[test]
fn only_simple_routers_have_a_next_worker() {
    let kv: InnerPrefillRouter<&str, &str> = InnerPrefillRouter::KvRouter(Arc::new("kv"));
    assert!(kv.select_next_worker().is_none());
    assert!(kv.peek_next_worker().is_none());
    let shared = Arc::new("simple");
    let simple: InnerPrefillRouter<&str, &str> = InnerPrefillRouter::SimpleRouter(shared.clone());
    assert!(Arc::ptr_eq(&simple.select_next_worker().unwrap(), &shared));
    assert!(Arc::ptr_eq(&simple.peek_next_worker().unwrap(), &shared));
}
