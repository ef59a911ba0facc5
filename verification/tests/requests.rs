use prefill_router::protocol::{
    Annotated, BootstrapInfo, CompletionUsage, LLMEngineOutput, PrefillResult, PreprocessedRequest,
    PromptTokensDetails, RouterConfigOverride, RoutingHints, StopConditions, ZERO_WEIGHT,
};
use std::sync::Arc;

fn request() -> PreprocessedRequest<String, u8> {
    PreprocessedRequest {
        token_ids: Arc::new(vec![11, 12, 13]),
        stop_conditions: StopConditions { max_tokens: Some(64) },
        annotations: Arc::new(vec!["query_instance_id:x".to_string()]),
        routing: None,
        router_config_override: None,
        prefill_result: None,
        bootstrap_info: None,
        tracker: Some(Arc::new(3)),
        payload: Arc::new("payload".to_string()),
    }
}

fn info() -> BootstrapInfo {
    BootstrapInfo { bootstrap_host: "host".to_string(), bootstrap_port: 8998, bootstrap_room: 42 }
}

#[test]
fn zero_weight_is_the_bits_of_zero() {
    assert_eq!(f64::from_bits(ZERO_WEIGHT), 0.0);
    assert_eq!(0.0f64.to_bits(), ZERO_WEIGHT);
}

#[test]
fn prefill_stops_after_one_token_and_shares_the_rest() {
    let request = request();
    let prefill = request.prefill_request();
    assert_eq!(prefill.stop_conditions.max_tokens, Some(1));
    assert_eq!(request.stop_conditions.max_tokens, Some(64));
    assert!(Arc::ptr_eq(&prefill.token_ids, &request.token_ids));
    assert!(Arc::ptr_eq(&prefill.annotations, &request.annotations));
    assert!(Arc::ptr_eq(&prefill.payload, &request.payload));
    assert!(Arc::ptr_eq(&prefill.tracker.unwrap(), &request.tracker.unwrap()));
    assert!(prefill.routing.is_none());
    assert!(prefill.bootstrap_info.is_none());
}

#[test]
fn copies_keep_hints_results_and_places() {
    let mut request = request();
    request.routing = Some(RoutingHints {
        prefill_worker_id: Some(1),
        decode_worker_id: Some(2),
        dp_rank: Some(3),
        lora_name: Some("lora".to_string()),
    });
    request.bootstrap_info = Some(info());
    request.prefill_result = Some(Arc::new(PrefillResult {
        disaggregated_params: serde_json::Value::Null,
        prompt_tokens_details: None,
    }));
    request.router_config_override =
        Some(RouterConfigOverride { overlap_score_weight: Some(5), router_temperature: Some(6) });
    assert_eq!(format!("{:?}", request.clone()), format!("{:?}", request));
}

#[test]
fn preselected_worker_comes_from_the_hints() {
    let mut request = request();
    assert_eq!(request.preselected_worker(), None);
    request.routing = Some(RoutingHints { prefill_worker_id: Some(9), ..RoutingHints::default() });
    assert_eq!(request.preselected_worker(), Some(9));
    request.routing = Some(RoutingHints::default());
    assert_eq!(request.preselected_worker(), None);
}

#[test]
fn bootstrap_sets_worker_rank_and_place() {
    let mut with_hints = request();
    with_hints.routing = Some(RoutingHints {
        prefill_worker_id: None,
        decode_worker_id: Some(2),
        dp_rank: None,
        lora_name: Some("lora".to_string()),
    });
    let hints = with_hints.with_bootstrap(7, 4, info()).routing.unwrap();
    assert_eq!(hints.prefill_worker_id, Some(7));
    assert_eq!(hints.dp_rank, Some(4));
    assert_eq!(hints.decode_worker_id, Some(2));
    assert_eq!(hints.lora_name.as_deref(), Some("lora"));

    let routed = request().with_bootstrap(7, 4, info());
    let place = routed.bootstrap_info.unwrap();
    assert_eq!(place.bootstrap_host, "host");
    assert_eq!(place.bootstrap_port, 8998);
    assert_eq!(place.bootstrap_room, 42);
    let hints = routed.routing.unwrap();
    assert_eq!(hints.prefill_worker_id, Some(7));
    assert_eq!(hints.decode_worker_id, None);
}

#[test]
fn decode_request_takes_results_and_drops_overlap_weight() {
    let result = PrefillResult {
        disaggregated_params: serde_json::Value::Bool(true),
        prompt_tokens_details: None,
    };
    let decode = request().decode_request(Some(64), Some(result), None);
    assert_eq!(
        decode.prefill_result.unwrap().disaggregated_params,
        serde_json::Value::Bool(true)
    );
    assert!(decode.bootstrap_info.is_none());
    let settings = decode.router_config_override.unwrap();
    assert_eq!(settings.overlap_score_weight, Some(0));
    assert_eq!(settings.router_temperature, None);
}

#[test]
fn decode_request_keeps_other_settings() {
    let mut before = request();
    before.router_config_override = Some(RouterConfigOverride {
        overlap_score_weight: Some(1.5f64.to_bits()),
        router_temperature: Some(0.7f64.to_bits()),
    });
    let decode = before.decode_request(None, None, Some(info()));
    assert_eq!(decode.stop_conditions.max_tokens, None);
    assert!(decode.prefill_result.is_none());
    assert_eq!(decode.bootstrap_info.unwrap().bootstrap_room, 42);
    let settings = decode.router_config_override.unwrap();
    assert_eq!(settings.overlap_score_weight.map(f64::from_bits), Some(0.0));
    assert_eq!(settings.router_temperature.map(f64::from_bits), Some(0.7));
}

#[test]
fn details_are_found_where_they_are() {
    let empty = Annotated { data: None, error: None };
    assert!(empty.prompt_tokens_details().is_none());
    let no_usage = Annotated {
        data: Some(LLMEngineOutput { completion_usage: None, disaggregated_params: None }),
        error: None,
    };
    assert!(no_usage.prompt_tokens_details().is_none());
    let full = Annotated {
        data: Some(LLMEngineOutput {
            completion_usage: Some(CompletionUsage {
                prompt_tokens_details: Some(PromptTokensDetails {
                    audio_tokens: None,
                    cached_tokens: Some(5),
                }),
            }),
            disaggregated_params: None,
        }),
        error: None,
    };
    assert_eq!(full.prompt_tokens_details().unwrap().cached_tokens, Some(5));
}
