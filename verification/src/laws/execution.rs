//! What holds of a prefill over any course of its execution.

use crate::error::PrefillErrorView;
use crate::execution::{
    first_details, outcome, ExecutionActionView, ExecutionEvent, PrefillExecution,
};
use crate::laws::operations::{law_good_first_output_is_success, tells_worker};
use crate::protocol::{Annotated, PromptTokensDetails};
use serde_json::Value;
use vstd::prelude::*;

verus! {

/// The execution after `events`, and the actions that it asked for, in their order.
pub open spec fn course(execution: PrefillExecution, events: Seq<ExecutionEvent>) -> (
    PrefillExecution,
    Seq<ExecutionActionView>,
)
    decreases events.len(),
{
    if events.len() == 0 {
        (execution, Seq::empty())
    } else {
        let (before, actions) = course(execution, events.drop_last());
        let (after, action) = before.after_event(events.last());
        (
            after,
            match action {
                Some(action) => actions.push(action),
                None => actions,
            },
        )
    }
}

/// The events of an execution that was routed and whose stream holds `outputs`, up to the
/// last of them.
pub open spec fn received(outputs: Seq<Annotated>) -> Seq<ExecutionEvent>
    recommends
        outputs.len() > 0,
{
    seq![
        ExecutionEvent::Routed(Ok(())),
        ExecutionEvent::Output(Some(outputs[0])),
        ExecutionEvent::PermitReleased,
    ] + outputs.drop_first().map_values(
        |output: Annotated| ExecutionEvent::Output(Some(output)),
    )
}

/// Whether `event` brings an output.
pub open spec fn is_output(event: ExecutionEvent) -> bool {
    match event {
        ExecutionEvent::Output(output) => output is Some,
        _ => false,
    }
}

/// The details on the prompt of a longer stream are those of the stream before, if it
/// had any, and otherwise those of the new output.
proof fn lemma_first_details_push(outputs: Seq<Annotated>, output: Annotated)
    ensures
        first_details(outputs.push(output)) == (if first_details(outputs) is Some {
            first_details(outputs)
        } else {
            output.details()
        }),
    decreases outputs.len(),
{
    if outputs.len() == 0 {
        assert(outputs.push(output).drop_first() =~= Seq::empty());
        assert(first_details(outputs.push(output).drop_first()) is None);
    } else {
        assert(outputs.push(output).drop_first() =~= outputs.drop_first().push(output));
        lemma_first_details_push(outputs.drop_first(), output);
    }
}

proof fn lemma_received(outputs: Seq<Annotated>)
    requires
        outputs.len() > 0,
    ensures
        course(PrefillExecution::Routing, received(outputs)).0 == (PrefillExecution::Draining {
            first: outputs[0],
            details: first_details(outputs),
        }),
        forall|i: int|
            0 <= i < course(PrefillExecution::Routing, received(outputs)).1.len()
                ==> !((#[trigger] course(PrefillExecution::Routing, received(outputs)).1[i]) is Finish),
    decreases outputs.len(),
{
    let start = PrefillExecution::Routing;
    let events = received(outputs);
    if outputs.len() == 1 {
        let one = seq![ExecutionEvent::Routed(Ok(()))];
        let two = one.push(ExecutionEvent::Output(Some(outputs[0])));
        assert(one.drop_last() =~= Seq::empty());
        assert(two.drop_last() =~= one);
        assert(events.drop_last() =~= two);
        assert(course(start, one.drop_last()) == (start, Seq::<ExecutionActionView>::empty()));
        assert(course(start, one).0 is AwaitingFirst);
        assert(course(start, two).0 == (PrefillExecution::Releasing { first: outputs[0] }));
        assert(events.last() == ExecutionEvent::PermitReleased);
        assert(outputs.drop_first() =~= Seq::empty());
        assert(first_details(outputs.drop_first()) is None);
    } else {
        let before = outputs.drop_last();
        assert(outputs =~= before.push(outputs.last()));
        assert(outputs.drop_first().drop_last() =~= before.drop_first());
        assert(events.drop_last() =~= received(before));
        assert(events.last() == ExecutionEvent::Output(Some(outputs.last())));
        lemma_received(before);
        lemma_first_details_push(before, outputs.last());
    }
}

/// What comes of a prefill is settled by its outputs alone: by the first one, but for the
/// details on the prompt, which are the first that any of the outputs holds. It comes when
/// the stream is at its end, and not before.
pub proof fn law_outputs_settle_result(outputs: Seq<Annotated>)
    requires
        outputs.len() > 0,
    ensures
        ({
            let events = received(outputs).push(ExecutionEvent::Output(None));
            let (execution, actions) = course(PrefillExecution::Routing, events);
            &&& execution is Finished
            &&& actions.len() > 0
            &&& actions.last() == ExecutionActionView::Finish(
                outcome(outputs[0], first_details(outputs)),
            )
            &&& forall|i: int|
                0 <= i < actions.len() - 1 ==> !((#[trigger] actions[i]) is Finish)
        }),
{
    let events = received(outputs).push(ExecutionEvent::Output(None));
    assert(events.drop_last() =~= received(outputs));
    lemma_received(outputs);
}

/// The details on the prompt that a prefill gives are those of an output that holds some,
/// with none before it; there are none only where no output holds any.
pub proof fn law_details_are_the_first(outputs: Seq<Annotated>)
    ensures
        match first_details(outputs) {
            Some(details) => exists|i: int|
                #![trigger outputs[i]]
                0 <= i < outputs.len() && outputs[i].details() == Some(details) && forall|j: int|
                    0 <= j < i ==> (#[trigger] outputs[j]).details() is None,
            None => forall|i: int|
                0 <= i < outputs.len() ==> (#[trigger] outputs[i]).details() is None,
        },
    decreases outputs.len(),
{
    if outputs.len() > 0 {
        let rest = outputs.drop_first();
        if outputs[0].details() is None {
            law_details_are_the_first(rest);
            assert(forall|i: int| 0 < i < outputs.len() ==> outputs[i] == rest[i - 1]);
            if first_details(rest) is Some {
                let k = choose|k: int|
                    #![trigger rest[k]]
                    0 <= k < rest.len() && rest[k].details() == first_details(rest) && forall|
                        j: int,
                    | 0 <= j < k ==> (#[trigger] rest[j]).details() is None;
                assert(outputs[k + 1] == rest[k]);
                assert forall|j: int| 0 <= j < k + 1 implies (#[trigger] outputs[j]).details() is None by {
                    if j > 0 {
                        assert(outputs[j] == rest[j - 1]);
                    }
                }
            }
        } else {
            assert(outputs[0].details() == first_details(outputs));
        }
    }
}

/// An execution gives one result: it is the last action, and nothing follows it.
pub proof fn law_one_result(execution: PrefillExecution, events: Seq<ExecutionEvent>)
    requires
        !(execution is Finished),
    ensures
        ({
            let (now, actions) = course(execution, events);
            &&& now is Finished <==> (actions.len() > 0 && actions.last() is Finish)
            &&& forall|i: int|
                0 <= i < actions.len() - 1 ==> !((#[trigger] actions[i]) is Finish)
        }),
    decreases events.len(),
{
    if events.len() > 0 {
        law_one_result(execution, events.drop_last());
    }
}

/// The permit for the prefill phase is released once: right after the first output came,
/// and before another one is waited for.
pub proof fn law_permit_released_at_first_output(events: Seq<ExecutionEvent>)
    ensures
        ({
            let (now, actions) = course(PrefillExecution::Routing, events);
            &&& forall|i: int|
                0 <= i < actions.len() && (#[trigger] actions[i]) is ReleasePermit ==> i == 1
            &&& actions.len() > 2 ==> actions[1] is ReleasePermit
            &&& actions.len() > 1 && actions[1] is ReleasePermit ==> exists|k: int|
                0 <= k < events.len() && is_output(#[trigger] events[k])
            &&& now is Routing ==> actions.len() == 0
            &&& now is AwaitingFirst ==> actions.len() == 1
            &&& now is Releasing ==> actions.len() == 2 && actions[1] is ReleasePermit
            &&& now is Draining ==> actions.len() > 2
        }),
    decreases events.len(),
{
    if events.len() > 0 {
        let before = events.drop_last();
        law_permit_released_at_first_output(before);
        let (old, earlier) = course(PrefillExecution::Routing, before);
        let (now, actions) = course(PrefillExecution::Routing, events);
        assert(events[events.len() - 1] == events.last());
        assert(forall|i: int| 0 <= i < earlier.len() ==> earlier[i] == actions[i]);
        if earlier.len() > 1 && earlier[1] is ReleasePermit {
            let k = choose|k: int| 0 <= k < before.len() && is_output(#[trigger] before[k]);
            assert(events[k] == before[k]);
        }
    }
}

/// Every answer to what was asked for brings another action, and nothing else does, until
/// the result is there.
pub proof fn law_answers_bring_actions(events: Seq<ExecutionEvent>)
    ensures
        ({
            let (now, actions) = course(PrefillExecution::Routing, events);
            forall|event: ExecutionEvent|
                (#[trigger] now.after_event(event)).1 is Some <==> (if actions.len() == 0 {
                    event is Routed
                } else {
                    match actions.last() {
                        ExecutionActionView::NextOutput => event is Output,
                        ExecutionActionView::ReleasePermit => event is PermitReleased,
                        ExecutionActionView::Finish(_) => false,
                    }
                })
        }),
{
    lemma_latest_action(events);
}

proof fn lemma_latest_action(events: Seq<ExecutionEvent>)
    ensures
        ({
            let (now, actions) = course(PrefillExecution::Routing, events);
            if now is Routing {
                actions.len() == 0
            } else {
                &&& actions.len() > 0
                &&& match now {
                    PrefillExecution::Releasing { .. } => actions.last() is ReleasePermit,
                    PrefillExecution::Finished => actions.last() is Finish,
                    _ => actions.last() is NextOutput,
                }
            }
        }),
    decreases events.len(),
{
    if events.len() > 0 {
        lemma_latest_action(events.drop_last());
    }
}

/// Whether `item` reports `details` on the prompt.
pub open spec fn reports(item: Annotated, details: PromptTokensDetails) -> bool {
    &&& item.data is Some
    &&& item.data->0.completion_usage is Some
    &&& item.data->0.completion_usage->0.prompt_tokens_details == Some(details)
}

/// Whether `details` are the first ones that any of `outputs` reports, or none where none of
/// them reports any.
pub open spec fn are_first_reported(
    outputs: Seq<Annotated>,
    details: Option<PromptTokensDetails>,
) -> bool {
    match details {
        Some(details) => exists|i: int|
            0 <= i < outputs.len() && #[trigger] reports(outputs[i], details) && forall|
                j: int,
                other: PromptTokensDetails,
            | 0 <= j < i ==> !#[trigger] reports(outputs[j], other),
        None => forall|j: int, other: PromptTokensDetails|
            0 <= j < outputs.len() ==> !#[trigger] reports(outputs[j], other),
    }
}

proof fn lemma_first_reported(outputs: Seq<Annotated>)
    ensures
        are_first_reported(outputs, first_details(outputs)),
{
    law_details_are_the_first(outputs);
    if first_details(outputs) is Some {
        let details = first_details(outputs)->0;
        let i = choose|i: int|
            #![trigger outputs[i]]
            0 <= i < outputs.len() && outputs[i].details() == Some(details) && forall|j: int|
                0 <= j < i ==> (#[trigger] outputs[j]).details() is None;
        assert(reports(outputs[i], details));
    }
}

/// The actions up to the end of a stream of `count` outputs: after the first output the
/// permit is released, and after the others the next one is waited for.
pub open spec fn reads_on(actions: Seq<ExecutionActionView>, count: nat) -> bool {
    &&& actions.len() == count + 2
    &&& forall|i: int|
        0 <= i < actions.len() ==> #[trigger] actions[i] == if i == 1 {
            ExecutionActionView::ReleasePermit
        } else {
            ExecutionActionView::NextOutput
        }
}

proof fn lemma_reads_on(outputs: Seq<Annotated>)
    requires
        outputs.len() > 0,
    ensures
        reads_on(course(PrefillExecution::Routing, received(outputs)).1, outputs.len()),
    decreases outputs.len(),
{
    let start = PrefillExecution::Routing;
    let events = received(outputs);
    if outputs.len() == 1 {
        let one = seq![ExecutionEvent::Routed(Ok(()))];
        let two = one.push(ExecutionEvent::Output(Some(outputs[0])));
        assert(one.drop_last() =~= Seq::empty());
        assert(two.drop_last() =~= one);
        assert(events.drop_last() =~= two);
        assert(course(start, one.drop_last()) == (start, Seq::<ExecutionActionView>::empty()));
        assert(course(start, one).0 is AwaitingFirst);
        assert(course(start, two).0 == (PrefillExecution::Releasing { first: outputs[0] }));
        assert(events.last() == ExecutionEvent::PermitReleased);
    } else {
        let before = outputs.drop_last();
        assert(outputs.drop_first().drop_last() =~= before.drop_first());
        assert(events.drop_last() =~= received(before));
        assert(events.last() == ExecutionEvent::Output(Some(outputs.last())));
        lemma_received(before);
        lemma_reads_on(before);
    }
}

/// Whatever its other outputs hold, a stream whose first output reports no error and holds
/// parameters is a success: the parameters of the first output are the result, with the
/// first details on the prompt that any output reports, if any, and with the worker that the
/// parameters tell, if any.
pub proof fn law_good_stream_succeeds(outputs: Seq<Annotated>, params: Value)
    requires
        outputs.len() > 0,
        outputs[0].error is None,
        outputs[0].data is Some,
        outputs[0].data->0.disaggregated_params == Some(params),
    ensures
        ({
            let events = received(outputs).push(ExecutionEvent::Output(None));
            let (execution, actions) = course(PrefillExecution::Routing, events);
            &&& execution is Finished
            &&& actions.last() is Finish
            &&& actions.last()->Finish_0 is Ok
            &&& actions.last()->Finish_0->Ok_0.0.disaggregated_params == params
            &&& are_first_reported(
                outputs,
                actions.last()->Finish_0->Ok_0.0.prompt_tokens_details,
            )
            &&& tells_worker(params, actions.last()->Finish_0->Ok_0.1)
            &&& reads_on(actions.drop_last(), outputs.len())
        }),
{
    let events = received(outputs).push(ExecutionEvent::Output(None));
    assert(events.drop_last() =~= received(outputs));
    lemma_received(outputs);
    lemma_reads_on(outputs);
    lemma_first_reported(outputs);
    law_good_first_output_is_success(outputs[0], first_details(outputs));
    let actions = course(PrefillExecution::Routing, events).1;
    assert(actions.drop_last() =~= course(PrefillExecution::Routing, received(outputs)).1);
}

/// Whatever its other outputs hold, a stream whose first output reports an error, has no
/// data, or has no parameters in its data is a failure that tells which of these it was, in
/// this order.
pub proof fn law_bad_stream_fails(outputs: Seq<Annotated>)
    requires
        outputs.len() > 0,
        outputs[0].error is Some || outputs[0].data is None
            || outputs[0].data->0.disaggregated_params is None,
    ensures
        ({
            let events = received(outputs).push(ExecutionEvent::Output(None));
            let (execution, actions) = course(PrefillExecution::Routing, events);
            &&& execution is Finished
            &&& actions.last() == ExecutionActionView::Finish(
                Err(
                    if outputs[0].error is Some {
                        PrefillErrorView::PrefillError(
                            "Prefill router returned error in output: "@ + outputs[0].error->0@,
                        )
                    } else if outputs[0].data is None {
                        PrefillErrorView::NoDisaggregatedParams(
                            "Prefill router output has no data field"@,
                        )
                    } else {
                        PrefillErrorView::NoDisaggregatedParams(
                            "Prefill router output missing disaggregated_params"@,
                        )
                    },
                ),
            )
            &&& reads_on(actions.drop_last(), outputs.len())
        }),
{
    let events = received(outputs).push(ExecutionEvent::Output(None));
    assert(events.drop_last() =~= received(outputs));
    lemma_received(outputs);
    lemma_reads_on(outputs);
    let actions = course(PrefillExecution::Routing, events).1;
    assert(actions.drop_last() =~= course(PrefillExecution::Routing, received(outputs)).1);
}

/// A prefill that could not be routed fails at once, with the text of that. A stream that
/// ends before its first output is a failure too, and its permit is not released ahead.
pub proof fn law_unanswered_prefill_fails(text: String)
    ensures
        ({
            let unrouted = seq![ExecutionEvent::Routed(Err(text))];
            let silent = seq![ExecutionEvent::Routed(Ok(())), ExecutionEvent::Output(None)];
            &&& course(PrefillExecution::Routing, unrouted) == (
                PrefillExecution::Finished,
                seq![ExecutionActionView::Finish(Err(PrefillErrorView::PrefillError(text@)))],
            )
            &&& course(PrefillExecution::Routing, silent) == (
                PrefillExecution::Finished,
                seq![
                    ExecutionActionView::NextOutput,
                    ExecutionActionView::Finish(
                        Err(
                            PrefillErrorView::PrefillError(
                                "Prefill router returned no output (stream ended)"@,
                            ),
                        ),
                    ),
                ],
            )
        }),
{
    let start = PrefillExecution::Routing;
    let unrouted = seq![ExecutionEvent::Routed(Err(text))];
    let routed = seq![ExecutionEvent::Routed(Ok(()))];
    let silent = routed.push(ExecutionEvent::Output(None));
    assert(silent =~= seq![ExecutionEvent::Routed(Ok(())), ExecutionEvent::Output(None)]);
    assert(unrouted.drop_last() =~= Seq::empty());
    assert(routed.drop_last() =~= Seq::empty());
    assert(silent.drop_last() =~= routed);
    assert(course(start, Seq::empty()) == (start, Seq::<ExecutionActionView>::empty()));
    assert(course(start, unrouted).1 =~= seq![
        ExecutionActionView::Finish(Err(PrefillErrorView::PrefillError(text@))),
    ]);
    assert(course(start, routed).0 is AwaitingFirst);
    assert(course(start, silent).1 =~= seq![
        ExecutionActionView::NextOutput,
        ExecutionActionView::Finish(
            Err(
                PrefillErrorView::PrefillError(
                    "Prefill router returned no output (stream ended)"@,
                ),
            ),
        ),
    ]);
}

/// An event that brings no action leaves the execution as it is.
pub proof fn law_other_events_change_nothing(execution: PrefillExecution, event: ExecutionEvent)
    ensures
        execution.after_event(event).1 is None ==> execution.after_event(event).0 == execution,
{
}

} // verus!
