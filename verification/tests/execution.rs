use prefill_router::error::PrefillError;
use prefill_router::execution::{
    conclude, prefill_worker_info, worker_info, ExecutionAction, ExecutionEvent, PrefillExecution,
    Prefilled,
};
use prefill_router::protocol::{
    Annotated, CompletionUsage, LLMEngineOutput, PreprocessedRequest, PromptTokensDetails,
    StopConditions,
};
use prefill_router::router::{Dispatch, InnerPrefillRouter};
use serde_json::Value;
use std::sync::Arc;

type Inner = InnerPrefillRouter<&'static str, &'static str>;

fn json(text: &str) -> Value {
    serde_json::from_str(text).unwrap()
}

fn request() -> PreprocessedRequest<u8, u8> {
    PreprocessedRequest {
        token_ids: Arc::new(vec![1]),
        stop_conditions: StopConditions { max_tokens: Some(1) },
        annotations: Arc::new(vec![]),
        routing: None,
        router_config_override: None,
        prefill_result: None,
        bootstrap_info: None,
        tracker: None,
        payload: Arc::new(0),
    }
}

fn output(params: Option<&str>, cached: Option<u32>) -> Annotated {
    Annotated {
        data: Some(LLMEngineOutput {
            completion_usage: Some(CompletionUsage {
                prompt_tokens_details: cached.map(|tokens| PromptTokensDetails {
                    audio_tokens: None,
                    cached_tokens: Some(tokens),
                }),
            }),
            disaggregated_params: params.map(json),
        }),
        error: None,
    }
}

/// Runs an execution that was routed, with these outputs, to its result.
fn run(outputs: Vec<Annotated>) -> Result<Prefilled, PrefillError> {
    let mut outputs = outputs.into_iter();
    let mut execution = PrefillExecution::Routing;
    let mut event = ExecutionEvent::Routed(Ok(()));
    loop {
        let (next, action) = execution.step(event);
        execution = next;
        event = match action.expect("an answer brings an action") {
            ExecutionAction::NextOutput => ExecutionEvent::Output(outputs.next()),
            ExecutionAction::ReleasePermit => ExecutionEvent::PermitReleased,
            ExecutionAction::Finish(result) => return result,
        };
    }
}

#[test]
fn worker_info_needs_a_worker() {
    assert_eq!(worker_info(None, Some(3)), None);
    assert_eq!(worker_info(Some(5), None), Some((5, 0)));
    assert_eq!(worker_info(Some(5), Some(3)), Some((5, 3)));
}

#[test]
fn ranks_keep_their_low_bits() {
    assert_eq!(worker_info(Some(1), Some(0x1_0000_0005)), Some((1, 5)));
    assert_eq!(worker_info(Some(1), Some(u64::MAX)), Some((1, u32::MAX)));
}

#[test]
fn worker_is_read_from_the_params() {
    let params = json(r#"{"worker_id": {"prefill_worker_id": 42, "prefill_dp_rank": 3}}"#);
    assert_eq!(prefill_worker_info(&params), Some((42, 3)));
    let params = json(r#"{"worker_id": {"prefill_worker_id": 18446744073709551615}}"#);
    assert_eq!(prefill_worker_info(&params), Some((u64::MAX, 0)));
}

#[test]
fn params_without_a_usable_worker_name_none() {
    for text in [
        "null",
        "[1, 2]",
        "{}",
        r#"{"worker_id": 7}"#,
        r#"{"worker_id": {}}"#,
        r#"{"worker_id": {"prefill_dp_rank": 3}}"#,
        r#"{"worker_id": {"prefill_worker_id": -1}}"#,
        r#"{"worker_id": {"prefill_worker_id": 1.5}}"#,
        r#"{"worker_id": {"prefill_worker_id": "7"}}"#,
        r#"{"prefill_worker_id": 7}"#,
    ] {
        assert_eq!(prefill_worker_info(&json(text)), None, "{}", text);
    }
}

#[test]
fn unusable_rank_counts_as_none() {
    let params = json(r#"{"worker_id": {"prefill_worker_id": 4, "prefill_dp_rank": "x"}}"#);
    assert_eq!(prefill_worker_info(&params), Some((4, 0)));
    let params = json(r#"{"worker_id": {"prefill_worker_id": 4, "prefill_dp_rank": -2}}"#);
    assert_eq!(prefill_worker_info(&params), Some((4, 0)));
}

#[test]
fn without_a_router_there_is_no_prefill() {
    let (execution, dispatch) =
        PrefillExecution::execute_prefill(None::<Inner>, request(), Some(1));
    assert!(matches!(execution, PrefillExecution::Finished));
    assert!(matches!(dispatch, Err(PrefillError::NotActivated)));
}

#[test]
fn cache_aware_router_ignores_the_target() {
    let inner: Inner = InnerPrefillRouter::KvRouter(Arc::new("kv"));
    let (execution, dispatch) =
        PrefillExecution::execute_prefill(Some(inner), request(), Some(8));
    assert!(matches!(execution, PrefillExecution::Routing));
    assert!(matches!(dispatch, Ok(Dispatch::Kv(router, _)) if *router == "kv"));
}

#[test]
fn simple_router_goes_straight_to_a_target() {
    let inner: Inner = InnerPrefillRouter::SimpleRouter(Arc::new("simple"));
    let (_, dispatch) =
        PrefillExecution::execute_prefill(Some(inner.clone()), request(), Some(8));
    assert!(matches!(dispatch, Ok(Dispatch::Direct(_, _, 8))));
    let (_, dispatch) = PrefillExecution::execute_prefill(Some(inner), request(), None);
    assert!(matches!(dispatch, Ok(Dispatch::Simple(router, _)) if *router == "simple"));
}

#[test]
fn failed_routing_ends_the_execution() {
    let event = ExecutionEvent::Routed(Err("no instances".to_string()));
    let (execution, action) = PrefillExecution::Routing.step(event);
    assert!(matches!(execution, PrefillExecution::Finished));
    assert!(matches!(
        action,
        Some(ExecutionAction::Finish(Err(PrefillError::PrefillError(text)))) if text == "no instances"
    ));
}

#[test]
fn empty_stream_is_an_error() {
    assert!(matches!(
        run(vec![]),
        Err(PrefillError::PrefillError(text)) if text == "Prefill router returned no output (stream ended)"
    ));
}

#[test]
fn error_in_the_first_output_is_reported_at_the_end() {
    let first = Annotated { data: None, error: Some("\"bad\"".to_string()) };
    assert!(matches!(
        run(vec![first, output(Some("{}"), Some(1))]),
        Err(PrefillError::PrefillError(text)) if text == "Prefill router returned error in output: \"bad\""
    ));
}

#[test]
fn error_in_a_later_output_is_not_looked_at() {
    let later = Annotated { data: None, error: Some("bad".to_string()) };
    assert!(run(vec![output(Some("{}"), None), later]).is_ok());
}

#[test]
fn first_output_needs_data_and_params() {
    let no_data = Annotated { data: None, error: None };
    assert!(matches!(
        run(vec![no_data, output(Some("{}"), None)]),
        Err(PrefillError::NoDisaggregatedParams(text)) if text == "Prefill router output has no data field"
    ));
    assert!(matches!(
        run(vec![output(None, Some(2)), output(Some("{}"), None)]),
        Err(PrefillError::NoDisaggregatedParams(text))
            if text == "Prefill router output missing disaggregated_params"
    ));
}

#[test]
fn result_holds_params_worker_and_first_details() {
    let params = r#"{"worker_id": {"prefill_worker_id": 6, "prefill_dp_rank": 1}, "x": [1]}"#;
    let (result, worker) =
        run(vec![output(Some(params), None), output(None, Some(10)), output(None, Some(20))])
            .unwrap();
    assert_eq!(result.disaggregated_params, json(params));
    assert_eq!(result.prompt_tokens_details.unwrap().cached_tokens, Some(10));
    assert_eq!(worker, Some((6, 1)));
}

#[test]
fn details_of_the_first_output_come_first() {
    let (result, worker) =
        run(vec![output(Some("{}"), Some(1)), output(None, Some(10))]).unwrap();
    assert_eq!(result.prompt_tokens_details.unwrap().cached_tokens, Some(1));
    assert_eq!(worker, None);
}

#[test]
fn without_details_there_are_none() {
    let (result, _) = run(vec![output(Some("{}"), None), output(None, None)]).unwrap();
    assert!(result.prompt_tokens_details.is_none());
}

#[test]
fn conclusion_prefers_the_error_over_the_data() {
    let mut first = output(Some("{}"), None);
    first.error = Some("late".to_string());
    assert!(matches!(conclude(first, None), Err(PrefillError::PrefillError(_))));
}

#[test]
fn permit_goes_when_the_first_output_is_there() {
    let (execution, action) =
        PrefillExecution::Routing.step(ExecutionEvent::Routed(Ok(())));
    assert!(matches!(action, Some(ExecutionAction::NextOutput)));
    let (execution, action) =
        execution.step(ExecutionEvent::Output(Some(output(Some("{}"), None))));
    assert!(matches!(action, Some(ExecutionAction::ReleasePermit)));
    let (execution, action) = execution.step(ExecutionEvent::PermitReleased);
    assert!(matches!(action, Some(ExecutionAction::NextOutput)));
    let (_, action) = execution.step(ExecutionEvent::Output(None));
    assert!(matches!(action, Some(ExecutionAction::Finish(Ok(_)))));
}

#[test]
fn unasked_events_change_nothing() {
    let (execution, action) = PrefillExecution::Routing.step(ExecutionEvent::PermitReleased);
    assert!(action.is_none());
    assert!(matches!(execution, PrefillExecution::Routing));
    let (execution, action) =
        PrefillExecution::Finished.step(ExecutionEvent::Output(None));
    assert!(action.is_none());
    assert!(matches!(execution, PrefillExecution::Finished));
}
