//! What holds of a router over any course of its activation.

use crate::activation::{Activation, ActivationAction, ActivationEvent, WorkerType};
use crate::error::{GenerateError, PrefillError};
use crate::generation::{Generation, GenerationAction};
use crate::protocol::PreprocessedRequest;
use crate::router::{EndpointId, InnerPrefillRouter, PrefillRouter, RouterMode};
use vstd::prelude::*;

verus! {

/// The router after `events`, and the actions that it asked for, in their order.
pub open spec fn course<K, S, C>(
    router: PrefillRouter<K, S, C>,
    events: Seq<ActivationEvent<K, S>>,
) -> (PrefillRouter<K, S, C>, Seq<ActivationAction<C>>)
    decreases events.len(),
{
    if events.len() == 0 {
        (router, Seq::empty())
    } else {
        let (before, actions) = course(router, events.drop_last());
        let (after, action) = before.after_event(events.last());
        (
            after,
            match action {
                Some(action) => actions.push(action),
                None => actions,
            },
        )
    }
}

/// The actions of an activation that succeeds, in their order.
pub open spec fn full_course<K, S, C>(
    router: PrefillRouter<K, S, C>,
    monitored: bool,
) -> Seq<ActivationAction<C>> {
    let client = if router.router_mode == RouterMode::KV {
        ActivationAction::MakeChooser {
            kv_cache_block_size: router.activation->Waiting_kv_cache_block_size,
            kv_router_config: router.activation->Waiting_kv_router_config,
            worker_type: WorkerType::Prefill,
        }
    } else {
        ActivationAction::MakeClient
    };
    let find = ActivationAction::FindMonitor(router.model_name);
    let make = ActivationAction::MakeRouter(router.router_mode);
    if monitored {
        seq![
            ActivationAction::StartWatcher,
            client,
            find,
            ActivationAction::TellMonitor,
            make,
            ActivationAction::Complete,
        ]
    } else {
        seq![
            ActivationAction::StartWatcher,
            client,
            find,
            make,
            ActivationAction::Complete,
        ]
    }
}

/// At every time, what holds of a router holds, and its mode, its strictness and its
/// model are those that it was made with.
pub proof fn law_router_stays_well_formed<K, S, C>(
    router: PrefillRouter<K, S, C>,
    events: Seq<ActivationEvent<K, S>>,
)
    requires
        router.wf(),
    ensures
        course(router, events).0.wf(),
        course(router, events).0.router_mode == router.router_mode,
        course(router, events).0.enforce_disagg == router.enforce_disagg,
        course(router, events).0.model_name == router.model_name,
    decreases events.len(),
{
    if events.len() > 0 {
        law_router_stays_well_formed(router, events.drop_last());
    }
}

/// A disabled router stays as it is, whatever happens: it never becomes active.
pub proof fn law_disabled_never_activates<K, S, C>(
    router: PrefillRouter<K, S, C>,
    events: Seq<ActivationEvent<K, S>>,
)
    requires
        router.activation is Disabled,
    ensures
        course(router, events) == (router, Seq::<ActivationAction<C>>::empty()),
    decreases events.len(),
{
    if events.len() > 0 {
        law_disabled_never_activates(router, events.drop_last());
    }
}

/// Whatever happens, a disabled router passes every request on to decoding as it came,
/// unless it was told to insist on a prefill.
pub proof fn law_disabled_passes_through<K, S, C, P, T>(
    router: PrefillRouter<K, S, C>,
    events: Seq<ActivationEvent<K, S>>,
    request_id: String,
    request: PreprocessedRequest<P, T>,
)
    requires
        router.wf(),
        router.activation is Disabled,
        !router.enforce_disagg,
    ensures
        ({
            let (generation, action) = Generation::started(
                course(router, events).0,
                request_id,
                request,
            );
            &&& generation.stage is Finished
            &&& action == GenerationAction::<K, S, P, T>::Forward(request)
        }),
{
    law_disabled_never_activates(router, events);
}

/// As long as it is not active, a router that insists on prefills refuses every request.
pub proof fn law_inactive_and_strict_refuses<K, S, C, P, T>(
    router: PrefillRouter<K, S, C>,
    request_id: String,
    request: PreprocessedRequest<P, T>,
)
    requires
        !router.active(),
        router.enforce_disagg,
    ensures
        ({
            let (generation, action) = Generation::started(router, request_id, request);
            &&& generation.stage is Finished
            &&& action == GenerationAction::<K, S, P, T>::Fail(
                GenerateError::Prefill(PrefillError::NotActivated),
            )
        }),
{
}

/// The endpoint and the router inside are set once: what is there stays, whatever happens.
pub proof fn law_first_setting_stays<K, S, C>(
    router: PrefillRouter<K, S, C>,
    events: Seq<ActivationEvent<K, S>>,
)
    ensures
        router.endpoint_id is Some ==> course(router, events).0.endpoint_id == router.endpoint_id,
        router.prefill_router is Some ==> course(router, events).0.prefill_router
            == router.prefill_router,
    decreases events.len(),
{
    if events.len() > 0 {
        law_first_setting_stays(router, events.drop_last());
    }
}

/// Were an activation begun anew, its steps would run again, and an endpoint and a router
/// inside that are there would stay, whatever happens.
pub proof fn law_first_setting_outlasts_new_activation<K, S, C>(
    router: PrefillRouter<K, S, C>,
    endpoint_id: EndpointId,
    kv_cache_block_size: u32,
    kv_router_config: Option<C>,
    events: Seq<ActivationEvent<K, S>>,
)
    ensures
        ({
            let (begun, action) = router.activating(
                endpoint_id,
                kv_cache_block_size,
                kv_router_config,
            );
            let later = course(begun, events).0;
            &&& action == Some(ActivationAction::<C>::StartWatcher)
            &&& router.endpoint_id is Some ==> later.endpoint_id == router.endpoint_id
            &&& router.endpoint_id is None ==> later.endpoint_id == Some(endpoint_id)
            &&& router.prefill_router is Some ==> later.prefill_router == router.prefill_router
        }),
{
    law_first_setting_stays(
        router.activating(endpoint_id, kv_cache_block_size, kv_router_config).0,
        events,
    );
}

/// An active router stays as it is, whatever happens.
pub proof fn law_active_stays_active<K, S, C>(
    router: PrefillRouter<K, S, C>,
    events: Seq<ActivationEvent<K, S>>,
)
    requires
        router.wf(),
        router.active(),
    ensures
        course(router, events) == (router, Seq::<ActivationAction<C>>::empty()),
    decreases events.len(),
{
    if events.len() > 0 {
        law_active_stays_active(router, events.drop_last());
    }
}

/// A router whose endpoint can no longer come, or that is dropped before it came, never
/// becomes active.
pub proof fn law_stopped_never_activates<K, S, C>(
    router: PrefillRouter<K, S, C>,
    events: Seq<ActivationEvent<K, S>>,
)
    requires
        router.wf(),
        router.activation is Waiting,
        events.len() > 0,
        events[0] is ChannelClosed || events[0] is Cancelled,
    ensures
        course(router, events).0.activation is Stopped,
        course(router, events).0 == (PrefillRouter { activation: Activation::Stopped, ..router }),
        !course(router, events).0.active(),
        course(router, events).1 == seq![ActivationAction::<C>::Stop],
    decreases events.len(),
{
    if events.len() > 1 {
        assert(events.drop_last()[0] == events[0]);
        law_stopped_never_activates(router, events.drop_last());
    } else {
        assert(events.drop_last() =~= Seq::empty());
        assert(course(router, events.drop_last()) == (router, Seq::<ActivationAction<C>>::empty()));
        assert(course(router, events).1 =~= seq![ActivationAction::<C>::Stop]);
    }
}

/// A router whose activation failed stays as it is, whatever happens: it never becomes
/// active.
pub proof fn law_failed_never_activates<K, S, C>(
    router: PrefillRouter<K, S, C>,
    events: Seq<ActivationEvent<K, S>>,
)
    requires
        router.activation is Failed,
    ensures
        course(router, events) == (router, Seq::<ActivationAction<C>>::empty()),
    decreases events.len(),
{
    if events.len() > 0 {
        law_failed_never_activates(router, events.drop_last());
    }
}

/// After a failed activation, whatever happens, every request passes through as it came, or
/// is refused where the router insists on prefills.
pub proof fn law_failed_passes_through_or_refuses<K, S, C, P, T>(
    router: PrefillRouter<K, S, C>,
    events: Seq<ActivationEvent<K, S>>,
    request_id: String,
    request: PreprocessedRequest<P, T>,
)
    requires
        router.wf(),
        router.activation is Failed,
    ensures
        ({
            let (generation, action) = Generation::started(
                course(router, events).0,
                request_id,
                request,
            );
            &&& generation.stage is Finished
            &&& action == if router.enforce_disagg {
                GenerationAction::<K, S, P, T>::Fail(
                    GenerateError::Prefill(PrefillError::NotActivated),
                )
            } else {
                GenerationAction::Forward(request)
            }
        }),
{
    law_failed_never_activates(router, events);
}

/// What the actions so far are, at each stage of an activation.
spec fn on_course<K, S, C>(
    router: PrefillRouter<K, S, C>,
    now: PrefillRouter<K, S, C>,
    actions: Seq<ActivationAction<C>>,
) -> bool {
    let whole = full_course(router, false);
    let monitored = full_course(router, true);
    match now.activation {
        Activation::Waiting { kv_cache_block_size, kv_router_config } => {
            &&& actions =~= Seq::empty()
            &&& now.activation == router.activation
        },
        Activation::Watching { kv_cache_block_size, kv_router_config } => {
            &&& actions =~= whole.take(1)
            &&& kv_cache_block_size == router.activation->Waiting_kv_cache_block_size
            &&& kv_router_config == router.activation->Waiting_kv_router_config
        },
        Activation::MakingChooser | Activation::MakingClient => actions =~= whole.take(2),
        Activation::FindingMonitor => actions =~= whole.take(3),
        Activation::TellingMonitor => actions =~= monitored.take(4),
        Activation::MakingRouter => actions =~= whole.take(4) || actions =~= monitored.take(5),
        Activation::Active => actions =~= whole || actions =~= monitored,
        Activation::Failed(text) => {
            &&& actions.len() >= 2
            &&& actions[0] is StartWatcher
            &&& actions.last() == ActivationAction::<C>::Fail(text)
        },
        Activation::Stopped => actions =~= seq![ActivationAction::Stop],
        Activation::Disabled => false,
    }
}

proof fn lemma_on_course<K, S, C>(
    router: PrefillRouter<K, S, C>,
    events: Seq<ActivationEvent<K, S>>,
)
    requires
        router.wf(),
        router.activation is Waiting,
    ensures
        on_course(router, course(router, events).0, course(router, events).1),
        course(router, events).0.endpoint_id matches Some(id) ==> exists|i: int|
            0 <= i < events.len() && #[trigger] events[i] == ActivationEvent::<
                K,
                S,
            >::EndpointReceived(id),
    decreases events.len(),
{
    if events.len() > 0 {
        let before = events.drop_last();
        lemma_on_course(router, before);
        law_router_stays_well_formed(router, before);
        let old = course(router, before).0;
        let now = course(router, events).0;
        if now.endpoint_id is Some {
            let id = now.endpoint_id->0;
            if old.endpoint_id is Some {
                assert(old.endpoint_id == now.endpoint_id);
                let i = choose|i: int|
                    0 <= i < before.len() && #[trigger] before[i] == ActivationEvent::<
                        K,
                        S,
                    >::EndpointReceived(id);
                assert(events[i] == before[i]);
            } else {
                assert(events[events.len() - 1] == ActivationEvent::<K, S>::EndpointReceived(id));
            }
        }
    }
}

/// A router becomes active only after the endpoint came and after all steps in their
/// order: the watcher of the workers' configurations first, then the client (with the
/// chooser of workers for cache-aware routing, made with the configuration of the router),
/// then the model's worker monitor, if there is one, and the router last.
pub proof fn law_steps_in_order<K, S, C>(
    router: PrefillRouter<K, S, C>,
    events: Seq<ActivationEvent<K, S>>,
)
    requires
        router.wf(),
        router.activation is Waiting,
        course(router, events).0.active(),
    ensures
        course(router, events).1 == full_course(router, false) || course(router, events).1
            == full_course(router, true),
        exists|i: int|
            0 <= i < events.len() && #[trigger] events[i] == ActivationEvent::<
                K,
                S,
            >::EndpointReceived(course(router, events).0.endpoint_id->0),
{
    lemma_on_course(router, events);
    law_router_stays_well_formed(router, events);
}

/// The events of an activation in which every step succeeds: the endpoint comes, there is a
/// worker monitor or not, and `inner` is the router that is made at the end.
pub open spec fn good_answers<K, S>(
    endpoint_id: EndpointId,
    found: bool,
    inner: InnerPrefillRouter<K, S>,
) -> Seq<ActivationEvent<K, S>> {
    let client = match inner {
        InnerPrefillRouter::KvRouter(_) => ActivationEvent::ChooserMade(Ok(())),
        InnerPrefillRouter::SimpleRouter(_) => ActivationEvent::ClientMade(Ok(())),
    };
    let made = match inner {
        InnerPrefillRouter::KvRouter(router) => ActivationEvent::KvRouterMade(Ok(router)),
        InnerPrefillRouter::SimpleRouter(router) => ActivationEvent::SimpleRouterMade(Ok(router)),
    };
    let begun = seq![
        ActivationEvent::EndpointReceived(endpoint_id),
        ActivationEvent::WatcherStarted(Ok(())),
        client,
        ActivationEvent::MonitorLookedUp(found),
    ];
    if found {
        begun.push(ActivationEvent::MonitorTold).push(made)
    } else {
        begun.push(made)
    }
}

/// A router that waits for its endpoint becomes active when the endpoint comes and every
/// step succeeds, in any mode, and whether or not the model has a worker monitor. It then has
/// the router that was made inside and the endpoint that came, and is as it was in all else.
pub proof fn law_good_answers_activate<K, S, C>(
    router: PrefillRouter<K, S, C>,
    endpoint_id: EndpointId,
    found: bool,
    inner: InnerPrefillRouter<K, S>,
)
    requires
        router.wf(),
        router.activation is Waiting,
        inner is KvRouter <==> router.router_mode == RouterMode::KV,
    ensures
        ({
            let (after, actions) = course(router, good_answers(endpoint_id, found, inner));
            &&& after.prefill_router == Some(inner)
            &&& after.endpoint_id == Some(endpoint_id)
            &&& after.activation is Active
            &&& after.router_mode == router.router_mode
            &&& after.enforce_disagg == router.enforce_disagg
            &&& after.model_name == router.model_name
            &&& actions == full_course(router, found)
        }),
{
    let events = good_answers(endpoint_id, found, inner);
    let e0 = events.take(0);
    let e1 = events.take(1);
    let e2 = events.take(2);
    let e3 = events.take(3);
    let e4 = events.take(4);
    let e5 = events.take(5);
    assert(e1.drop_last() =~= e0);
    assert(e2.drop_last() =~= e1);
    assert(e3.drop_last() =~= e2);
    assert(e4.drop_last() =~= e3);
    assert(e5.drop_last() =~= e4);
    assert(course(router, e0) == (router, Seq::<ActivationAction<C>>::empty()));
    assert(course(router, e1).0.activation is Watching);
    assert(course(router, e2).0.activation is MakingChooser || course(
        router,
        e2,
    ).0.activation is MakingClient);
    assert(course(router, e3).0.activation is FindingMonitor);
    if found {
        assert(events.drop_last() =~= e5);
        assert(course(router, e4).0.activation is TellingMonitor);
        assert(course(router, e5).0.activation is MakingRouter);
    } else {
        assert(events.drop_last() =~= e4);
        assert(course(router, e4).0.activation is MakingRouter);
    }
    assert(course(router, events).1 =~= full_course(router, found));
}

/// Whether `event` is an answer after `actions`: to the latest of them, or to the wait for
/// the endpoint where there is none.
pub open spec fn answers<K, S, C>(
    actions: Seq<ActivationAction<C>>,
    event: ActivationEvent<K, S>,
) -> bool {
    if actions.len() == 0 {
        event is EndpointReceived || event is ChannelClosed || event is Cancelled
    } else {
        match actions.last() {
            ActivationAction::StartWatcher => event is WatcherStarted,
            ActivationAction::MakeChooser { .. } => event is ChooserMade,
            ActivationAction::MakeClient => event is ClientMade,
            ActivationAction::FindMonitor(_) => event is MonitorLookedUp,
            ActivationAction::TellMonitor => event is MonitorTold,
            ActivationAction::MakeRouter(mode) => if mode == RouterMode::KV {
                event is KvRouterMade
            } else {
                event is SimpleRouterMade
            },
            _ => false,
        }
    }
}

/// The text of the error that `event` brings.
pub open spec fn error_in<K, S>(event: ActivationEvent<K, S>) -> Option<String> {
    match event {
        ActivationEvent::WatcherStarted(Err(text)) => Some(text),
        ActivationEvent::ChooserMade(Err(text)) => Some(text),
        ActivationEvent::ClientMade(Err(text)) => Some(text),
        ActivationEvent::KvRouterMade(Err(text)) => Some(text),
        ActivationEvent::SimpleRouterMade(Err(text)) => Some(text),
        _ => None,
    }
}

/// Which action came last, at each stage of an activation.
spec fn is_latest<K, S, C>(
    now: PrefillRouter<K, S, C>,
    actions: Seq<ActivationAction<C>>,
) -> bool {
    if now.activation is Waiting {
        actions.len() == 0
    } else {
        &&& actions.len() > 0
        &&& match now.activation {
            Activation::Watching { .. } => actions.last() is StartWatcher,
            Activation::MakingChooser => actions.last() is MakeChooser,
            Activation::MakingClient => actions.last() is MakeClient,
            Activation::FindingMonitor => actions.last() is FindMonitor,
            Activation::TellingMonitor => actions.last() is TellMonitor,
            Activation::MakingRouter => actions.last() == ActivationAction::<C>::MakeRouter(
                now.router_mode,
            ),
            Activation::Active => actions.last() is Complete,
            Activation::Failed(text) => actions.last() == ActivationAction::<C>::Fail(text),
            Activation::Stopped => actions.last() is Stop,
            _ => false,
        }
    }
}

proof fn lemma_latest<K, S, C>(router: PrefillRouter<K, S, C>, events: Seq<ActivationEvent<K, S>>)
    requires
        router.wf(),
        router.activation is Waiting,
    ensures
        is_latest(course(router, events).0, course(router, events).1),
    decreases events.len(),
{
    if events.len() > 0 {
        lemma_latest(router, events.drop_last());
        law_router_stays_well_formed(router, events.drop_last());
    }
}

/// An answer brings one more action. Whatever is no answer brings none and leaves the
/// router as it is.
pub proof fn law_only_answers_count<K, S, C>(
    router: PrefillRouter<K, S, C>,
    events: Seq<ActivationEvent<K, S>>,
    event: ActivationEvent<K, S>,
)
    requires
        router.wf(),
        router.activation is Waiting,
    ensures
        ({
            let (before, actions) = course(router, events);
            let (after, later) = course(router, events.push(event));
            if answers(actions, event) {
                &&& later.len() == actions.len() + 1
                &&& later.drop_last() == actions
            } else {
                &&& later == actions
                &&& after == before
            }
        }),
{
    assert(events.push(event).drop_last() =~= events);
    lemma_latest(router, events);
    law_router_stays_well_formed(router, events);
    let actions = course(router, events).1;
    let later = course(router, events.push(event)).1;
    if answers(actions, event) {
        assert(later.drop_last() =~= actions);
    }
}

/// An activation fails exactly when an answer brings an error: with the text of that
/// error, which is reported, and with the router as it was in all else. No other answer
/// makes it fail, and none is reported as a failure.
pub proof fn law_fails_exactly_on_errors<K, S, C>(
    router: PrefillRouter<K, S, C>,
    events: Seq<ActivationEvent<K, S>>,
    event: ActivationEvent<K, S>,
)
    requires
        router.wf(),
        router.activation is Waiting,
        answers(course(router, events).1, event),
    ensures
        ({
            let before = course(router, events).0;
            let (after, actions) = course(router, events.push(event));
            match error_in(event) {
                Some(text) => {
                    &&& after == (PrefillRouter { activation: Activation::Failed(text), ..before })
                    &&& actions.last() == ActivationAction::<C>::Fail(text)
                },
                None => {
                    &&& !(after.activation is Failed)
                    &&& !(actions.last() is Fail)
                },
            }
        }),
{
    assert(events.push(event).drop_last() =~= events);
    lemma_latest(router, events);
    law_router_stays_well_formed(router, events);
}

/// Where an activation has failed, one of the events brought the error that it failed with.
pub proof fn law_failure_has_a_cause<K, S, C>(
    router: PrefillRouter<K, S, C>,
    events: Seq<ActivationEvent<K, S>>,
)
    requires
        router.wf(),
        router.activation is Waiting,
    ensures
        course(router, events).0.activation matches Activation::Failed(text) ==> exists|i: int|
            0 <= i < events.len() && error_in(#[trigger] events[i]) == Some(text),
        forall|i: int|
            0 <= i < course(router, events).1.len() && (
            #[trigger] course(router, events).1[i]) is Fail
                ==> course(router, events).0.activation is Failed,
    decreases events.len(),
{
    if events.len() > 0 {
        let before = events.drop_last();
        law_failure_has_a_cause(router, before);
        let (old, earlier) = course(router, before);
        let (now, actions) = course(router, events);
        if now.activation is Failed {
            let text = now.activation->Failed_0;
            if old.activation is Failed {
                let i = choose|i: int|
                    0 <= i < before.len() && error_in(#[trigger] before[i]) == Some(text);
                assert(events[i] == before[i]);
            } else {
                assert(error_in(events[events.len() - 1]) == Some(text));
            }
        }
        assert(forall|i: int| 0 <= i < earlier.len() ==> earlier[i] == actions[i]);
    }
}

/// The router that is inside an active router is one that was made for it.
pub proof fn law_active_router_was_made<K, S, C>(
    router: PrefillRouter<K, S, C>,
    events: Seq<ActivationEvent<K, S>>,
)
    requires
        router.wf(),
        router.activation is Waiting,
    ensures
        course(router, events).0.prefill_router matches Some(inner) ==> exists|i: int|
            0 <= i < events.len() && made_by(#[trigger] events[i]) == Some(inner),
    decreases events.len(),
{
    if events.len() > 0 {
        let before = events.drop_last();
        law_active_router_was_made(router, before);
        law_router_stays_well_formed(router, before);
        let old = course(router, before).0;
        let now = course(router, events).0;
        if now.prefill_router is Some {
            if old.prefill_router is Some {
                let i = choose|i: int|
                    0 <= i < before.len() && made_by(#[trigger] before[i]) == old.prefill_router;
                assert(events[i] == before[i]);
            } else {
                assert(made_by(events[events.len() - 1]) == now.prefill_router);
            }
        }
    }
}

/// The router that `event` brings.
pub open spec fn made_by<K, S>(event: ActivationEvent<K, S>) -> Option<InnerPrefillRouter<K, S>> {
    match event {
        ActivationEvent::KvRouterMade(Ok(router)) => Some(InnerPrefillRouter::KvRouter(router)),
        ActivationEvent::SimpleRouterMade(Ok(router)) => Some(
            InnerPrefillRouter::SimpleRouter(router),
        ),
        _ => None,
    }
}

/// A router that is not active passes every request through as it came, or refuses it
/// where it insists on prefills, and is done with it.
pub proof fn law_inactive_passes_through_or_refuses<K, S, C, P, T>(
    router: PrefillRouter<K, S, C>,
    request_id: String,
    request: PreprocessedRequest<P, T>,
)
    requires
        router.prefill_router is None,
    ensures
        ({
            let (generation, action) = Generation::started(router, request_id, request);
            &&& generation.stage is Finished
            &&& action == if router.enforce_disagg {
                GenerationAction::<K, S, P, T>::Fail(
                    GenerateError::Prefill(PrefillError::NotActivated),
                )
            } else {
                GenerationAction::Forward(request)
            }
        }),
{
}

} // verus!
