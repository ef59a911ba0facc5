//! The execution of one prefill: the request is routed, the response stream is read to
//! its end, and what decoding needs is taken out of it.
//!
//! The steps that reach outside are actions for the caller to perform. It answers each
//! with an event.

use crate::error::{PrefillError, PrefillErrorView};
use crate::json::{get_member, json_content};
use crate::protocol::{Annotated, PrefillResult, PreprocessedRequest, PromptTokensDetails};
use crate::router::{Dispatch, InnerPrefillRouter};
use serde_json::Value;
use vstd::prelude::*;
use vstd::string::*;

verus! {

/// What a prefill gives: its result, and the worker that it ran on with the worker's
/// rank in data parallelism, where the response tells.
pub type Prefilled = (PrefillResult, Option<(u64, u32)>);

/// How far the execution has come.
#[derive(Debug)]
pub enum PrefillExecution {
    /// The request is being routed to a worker.
    Routing,
    /// The worker has the request, and the first output is awaited.
    AwaitingFirst,
    /// The first output is there, and the permit is being released.
    Releasing { first: Annotated },
    /// The other outputs are being read; `details` is what was told of the prompt so far.
    Draining { first: Annotated, details: Option<PromptTokensDetails> },
    /// The execution is over.
    Finished,
}

/// What has happened.
#[derive(Debug)]
pub enum ExecutionEvent {
    /// The response stream is there, or the request could not be routed.
    Routed(Result<(), String>),
    /// The next output, or the end of the stream.
    Output(Option<Annotated>),
    /// The permit for the prefill phase, if there was one, is gone.
    PermitReleased,
}

/// What is to be done next.
#[derive(Debug)]
pub enum ExecutionAction {
    /// Wait for the next output.
    NextOutput,
    /// Release the permit for the prefill phase, if there is one.
    ReleasePermit,
    /// Return this. A permit that is still held goes with it.
    Finish(Result<Prefilled, PrefillError>),
}

/// An `ExecutionAction`, with the text of an error as a sequence of characters.
pub enum ExecutionActionView {
    NextOutput,
    ReleasePermit,
    Finish(Result<Prefilled, PrefillErrorView>),
}

/// A result, with the text of its error as a sequence of characters.
pub open spec fn result_view(result: Result<Prefilled, PrefillError>) -> Result<
    Prefilled,
    PrefillErrorView,
> {
    match result {
        Ok(prefilled) => Ok(prefilled),
        Err(error) => Err(error@),
    }
}

impl View for ExecutionAction {
    type V = ExecutionActionView;

    open spec fn view(&self) -> ExecutionActionView {
        match self {
            ExecutionAction::NextOutput => ExecutionActionView::NextOutput,
            ExecutionAction::ReleasePermit => ExecutionActionView::ReleasePermit,
            ExecutionAction::Finish(result) => ExecutionActionView::Finish(result_view(*result)),
        }
    }
}

/// An action or none, with the text of an error as a sequence of characters.
pub open spec fn action_view(action: Option<ExecutionAction>) -> Option<ExecutionActionView> {
    match action {
        Some(action) => Some(action@),
        None => None,
    }
}

/// The worker and rank that two numbers of a response stand for: no worker, no answer; no
/// rank, rank zero. A rank keeps its low 32 bits.
pub open spec fn worker_and_rank(worker_id: Option<u64>, dp_rank: Option<u64>) -> Option<
    (u64, u32),
> {
    match worker_id {
        Some(worker_id) => Some(
            (
                worker_id,
                match dp_rank {
                    Some(rank) => (rank as int % 0x1_0000_0000) as u32,
                    None => 0,
                },
            ),
        ),
        None => None,
    }
}

/// The worker and rank that the parameters of a response name.
pub open spec fn named_worker(params: Value) -> Option<(u64, u32)> {
    match json_content(params).member("worker_id"@) {
        Some(ids) => worker_and_rank(
            named_number(ids, "prefill_worker_id"@),
            named_number(ids, "prefill_dp_rank"@),
        ),
        None => None,
    }
}

/// The number that is the member `key` of `value`.
pub open spec fn named_number(value: Value, key: Seq<char>) -> Option<u64> {
    match json_content(value).member(key) {
        Some(number) => json_content(number).unsigned(),
        None => None,
    }
}

/// What comes of a prefill whose first output is `first`, where the whole stream told
/// `details` of the prompt.
pub open spec fn outcome(first: Annotated, details: Option<PromptTokensDetails>) -> Result<
    Prefilled,
    PrefillErrorView,
> {
    if first.error is Some {
        Err(
            PrefillErrorView::PrefillError(
                "Prefill router returned error in output: "@ + first.error->0@,
            ),
        )
    } else if first.data is None {
        Err(
            PrefillErrorView::NoDisaggregatedParams("Prefill router output has no data field"@),
        )
    } else if first.data->0.disaggregated_params is None {
        Err(
            PrefillErrorView::NoDisaggregatedParams(
                "Prefill router output missing disaggregated_params"@,
            ),
        )
    } else {
        let params = first.data->0.disaggregated_params->0;
        Ok(
            (
                PrefillResult { disaggregated_params: params, prompt_tokens_details: details },
                named_worker(params),
            ),
        )
    }
}

/// The first details on the prompt that any of `outputs` holds.
pub open spec fn first_details(outputs: Seq<Annotated>) -> Option<PromptTokensDetails>
    decreases outputs.len(),
{
    if outputs.len() == 0 {
        None
    } else if outputs[0].details() is Some {
        outputs[0].details()
    } else {
        first_details(outputs.drop_first())
    }
}

/// The worker and rank that two numbers of a response stand for: no worker, no answer; no
/// rank, rank zero. A rank keeps its low 32 bits.
pub fn worker_info(worker_id: Option<u64>, dp_rank: Option<u64>) -> (info: Option<(u64, u32)>)
    ensures
        info == worker_and_rank(worker_id, dp_rank),
{
    let worker_id: u64 = worker_id?;
    let dp_rank: u32 = match dp_rank {
        Some(rank) => {
            assert(rank as u32 == rank % 0x1_0000_0000) by (bit_vector);
            #[verifier::truncate]
            (rank as u32)
        },
        None => 0,
    };
    Some((worker_id, dp_rank))
}

/// The number that is the member `key` of `value`.
fn number_member(value: &Value, key: &str) -> (number: Option<u64>)
    ensures
        number == named_number(*value, key@),
{
    match get_member(value, key) {
        Some(number) => number.as_u64(),
        None => None,
    }
}

/// The worker that the parameters of a response name as the one that ran the prefill,
/// with its rank.
pub fn prefill_worker_info(disaggregated_params: &Value) -> (info: Option<(u64, u32)>)
    ensures
        info == named_worker(*disaggregated_params),
{
    match get_member(disaggregated_params, "worker_id") {
        Some(ids) => worker_info(
            number_member(ids, "prefill_worker_id"),
            number_member(ids, "prefill_dp_rank"),
        ),
        None => None,
    }
}

/// Takes what decoding needs out of the first output of a prefill. `details` is what the
/// whole stream told of the prompt.
pub fn conclude(first: Annotated, details: Option<PromptTokensDetails>) -> (result: Result<
    Prefilled,
    PrefillError,
>)
    ensures
        result_view(result) == outcome(first, details),
{
    if let Some(error) = first.error {
        return Err(
            PrefillError::PrefillError(
                "Prefill router returned error in output: ".to_string().concat(error.as_str()),
            ),
        );
    }
    match first.data {
        None => Err(
            PrefillError::NoDisaggregatedParams(
                "Prefill router output has no data field".to_string(),
            ),
        ),
        Some(output) => match output.disaggregated_params {
            None => Err(
                PrefillError::NoDisaggregatedParams(
                    "Prefill router output missing disaggregated_params".to_string(),
                ),
            ),
            Some(disaggregated_params) => {
                let info = prefill_worker_info(&disaggregated_params);
                Ok((PrefillResult { disaggregated_params, prompt_tokens_details: details }, info))
            },
        },
    }
}

impl PrefillExecution {
    /// `self` after `event`, and the next action. An event that answers nothing that
    /// was asked for changes nothing, and no action follows.
    pub open spec fn after_event(self, event: ExecutionEvent) -> (
        PrefillExecution,
        Option<ExecutionActionView>,
    ) {
        match (self, event) {
            (PrefillExecution::Routing, ExecutionEvent::Routed(result)) => match result {
                Ok(_) => (PrefillExecution::AwaitingFirst, Some(ExecutionActionView::NextOutput)),
                Err(text) => (
                    PrefillExecution::Finished,
                    Some(
                        ExecutionActionView::Finish(Err(PrefillErrorView::PrefillError(text@))),
                    ),
                ),
            },
            (PrefillExecution::AwaitingFirst, ExecutionEvent::Output(output)) => match output {
                Some(first) => (
                    PrefillExecution::Releasing { first },
                    Some(ExecutionActionView::ReleasePermit),
                ),
                None => (
                    PrefillExecution::Finished,
                    Some(
                        ExecutionActionView::Finish(
                            Err(
                                PrefillErrorView::PrefillError(
                                    "Prefill router returned no output (stream ended)"@,
                                ),
                            ),
                        ),
                    ),
                ),
            },
            (PrefillExecution::Releasing { first }, ExecutionEvent::PermitReleased) => (
                PrefillExecution::Draining { first, details: first.details() },
                Some(ExecutionActionView::NextOutput),
            ),
            (PrefillExecution::Draining { first, details }, ExecutionEvent::Output(output)) =>
            match output {
                Some(next) => (
                    PrefillExecution::Draining {
                        first,
                        details: if details is Some {
                            details
                        } else {
                            next.details()
                        },
                    },
                    Some(ExecutionActionView::NextOutput),
                ),
                None => (
                    PrefillExecution::Finished,
                    Some(ExecutionActionView::Finish(outcome(first, details))),
                ),
            },
            _ => (self, None),
        }
    }

    /// Begins with a prefill: says how `request` leaves for its worker, where there is a
    /// router. Without one, the execution is over.
    pub fn execute_prefill<K, S, P, T>(
        router: Option<InnerPrefillRouter<K, S>>,
        request: PreprocessedRequest<P, T>,
        target_worker: Option<u64>,
    ) -> (begun: (PrefillExecution, Result<Dispatch<K, S, P, T>, PrefillError>))
        ensures
            match router {
                Some(router) => begun == (
                    PrefillExecution::Routing,
                    Ok::<_, PrefillError>(router.dispatch(request, target_worker)),
                ),
                None => begun == (
                    PrefillExecution::Finished,
                    Err::<Dispatch<K, S, P, T>, _>(PrefillError::NotActivated),
                ),
            },
    {
        match router {
            Some(router) => (
                PrefillExecution::Routing,
                Ok(router.generate_to_worker(request, target_worker)),
            ),
            None => (PrefillExecution::Finished, Err(PrefillError::NotActivated)),
        }
    }

    /// Goes on with the prefill after `event`: says what is to be done next, or nothing
    /// where `event` answers nothing that was asked for.
    ///
    /// The permit for the prefill phase goes when the first output is there: by then the
    /// worker of the prefill is on record, and the request may enter the next phase.
    pub fn step(self, event: ExecutionEvent) -> (next: (PrefillExecution, Option<ExecutionAction>))
        ensures
            (next.0, action_view(next.1)) == self.after_event(event),
    {
        match (self, event) {
            (PrefillExecution::Routing, ExecutionEvent::Routed(result)) => match result {
                Ok(_) => (PrefillExecution::AwaitingFirst, Some(ExecutionAction::NextOutput)),
                Err(text) => (
                    PrefillExecution::Finished,
                    Some(ExecutionAction::Finish(Err(PrefillError::PrefillError(text)))),
                ),
            },
            (PrefillExecution::AwaitingFirst, ExecutionEvent::Output(output)) => match output {
                Some(first) => (
                    PrefillExecution::Releasing { first },
                    Some(ExecutionAction::ReleasePermit),
                ),
                None => (
                    PrefillExecution::Finished,
                    Some(
                        ExecutionAction::Finish(
                            Err(
                                PrefillError::PrefillError(
                                    "Prefill router returned no output (stream ended)".to_string(),
                                ),
                            ),
                        ),
                    ),
                ),
            },
            (PrefillExecution::Releasing { first }, ExecutionEvent::PermitReleased) => {
                let details = first.prompt_tokens_details();
                (
                    PrefillExecution::Draining { first, details },
                    Some(ExecutionAction::NextOutput),
                )
            },
            (PrefillExecution::Draining { first, details }, ExecutionEvent::Output(output)) =>
            match output {
                Some(next) => {
                    let details = if details.is_some() {
                        details
                    } else {
                        next.prompt_tokens_details()
                    };
                    (
                        PrefillExecution::Draining { first, details },
                        Some(ExecutionAction::NextOutput),
                    )
                },
                None => (
                    PrefillExecution::Finished,
                    Some(ExecutionAction::Finish(conclude(first, details))),
                ),
            },
            (execution, _) => (execution, None),
        }
    }
}

} // verus!
