//! How a prefill router becomes active, once, when the endpoint of the prefill workers
//! is known.
//!
//! The steps that reach outside are actions for the caller to perform. It answers each
//! with an event.

use crate::router::{EndpointId, InnerPrefillRouter, PrefillRouter, RouterMode};
use std::sync::Arc;
use vstd::prelude::*;

verus! {

/// The kind of work that a worker does.
#[derive(Debug, Clone, Copy, PartialEq, Eq, Structural)]
pub enum WorkerType {
    Prefill,
    Decode,
}

/// How far the activation has come.
#[derive(Debug)]
pub enum Activation<C> {
    /// There will be none.
    Disabled,
    /// The endpoint is not known yet.
    Waiting { kv_cache_block_size: u32, kv_router_config: Option<C> },
    /// The watcher of the workers' configurations is being started.
    Watching { kv_cache_block_size: u32, kv_router_config: Option<C> },
    /// The chooser of workers, with its client, is being made.
    MakingChooser,
    /// The client is being made.
    MakingClient,
    /// The worker monitor of the model is being looked up.
    FindingMonitor,
    /// The worker monitor is being told the client.
    TellingMonitor,
    /// The router is being made.
    MakingRouter,
    /// Prefills can be routed.
    Active,
    /// A step failed, with this text.
    Failed(String),
    /// The endpoint will not come.
    Stopped,
}

/// What has happened.
#[derive(Debug)]
pub enum ActivationEvent<K, S> {
    /// The endpoint has become known.
    EndpointReceived(EndpointId),
    /// Nobody is left who could send the endpoint.
    ChannelClosed,
    /// The router was dropped.
    Cancelled,
    /// The watcher runs, or could not be started.
    WatcherStarted(Result<(), String>),
    /// The chooser and its client are there, or could not be made.
    ChooserMade(Result<(), String>),
    /// The client is there, or could not be made.
    ClientMade(Result<(), String>),
    /// Whether the model has a worker monitor.
    MonitorLookedUp(bool),
    /// The worker monitor knows the client.
    MonitorTold,
    /// The cache-aware router is there, or could not be made.
    KvRouterMade(Result<Arc<K>, String>),
    /// The simple router is there, or could not be made.
    SimpleRouterMade(Result<Arc<S>, String>),
}

/// What is to be done next.
#[derive(Debug)]
pub enum ActivationAction<C> {
    /// Start the watcher of the configurations of the workers behind the endpoint.
    StartWatcher,
    /// Make the chooser of workers for the endpoint, and the client that it uses.
    MakeChooser { kv_cache_block_size: u32, kv_router_config: Option<C>, worker_type: WorkerType },
    /// Make a client for the endpoint.
    MakeClient,
    /// Look up the worker monitor of the model of this name.
    FindMonitor(String),
    /// Tell the worker monitor the client.
    TellMonitor,
    /// Make a router in this mode on top of the client, and on top of the chooser where
    /// there is one; with no threshold for busy workers and no monitor of its own.
    MakeRouter(RouterMode),
    /// All is done.
    Complete,
    /// Report that the activation failed, with this text.
    Fail(String),
    /// End the wait for the endpoint.
    Stop,
}

impl<K, S, C> PrefillRouter<K, S, C> {
    /// What holds of a router at any time.
    pub open spec fn wf(self) -> bool {
        &&& match self.activation {
            Activation::Disabled | Activation::Waiting { .. } | Activation::Stopped => {
                self.endpoint_id is None && self.prefill_router is None
            },
            Activation::Active => self.endpoint_id is Some && self.prefill_router is Some,
            _ => self.endpoint_id is Some && self.prefill_router is None,
        }
        &&& self.activation is MakingChooser ==> self.router_mode == RouterMode::KV
        &&& self.activation is MakingClient ==> self.router_mode != RouterMode::KV
        &&& self.prefill_router matches Some(inner) ==> (inner is KvRouter <==> self.router_mode
            == RouterMode::KV)
    }

    /// `self` with the activation begun, or begun anew, with `endpoint_id` as the endpoint,
    /// and the first action. The first endpoint to be set stays.
    pub open spec fn activating(
        self,
        endpoint_id: EndpointId,
        kv_cache_block_size: u32,
        kv_router_config: Option<C>,
    ) -> (Self, Option<ActivationAction<C>>) {
        let endpoint_id = match self.endpoint_id {
            Some(first) => Some(first),
            None => Some(endpoint_id),
        };
        (
            PrefillRouter {
                endpoint_id,
                activation: Activation::Watching { kv_cache_block_size, kv_router_config },
                ..self
            },
            Some(ActivationAction::StartWatcher),
        )
    }

    /// `self` with the activation at `activation`.
    pub open spec fn at(self, activation: Activation<C>) -> Self {
        PrefillRouter { activation, ..self }
    }

    /// `self` after a failed step, and the report.
    pub open spec fn failing(self, text: String) -> (Self, Option<ActivationAction<C>>) {
        (self.at(Activation::Failed(text)), Some(ActivationAction::Fail(text)))
    }

    /// `self` with the client at hand, and the next action.
    pub open spec fn with_client(self) -> (Self, Option<ActivationAction<C>>) {
        (
            self.at(Activation::FindingMonitor),
            Some(ActivationAction::FindMonitor(self.model_name)),
        )
    }

    /// `self` with the worker monitor settled, and the next action.
    pub open spec fn with_monitor(self) -> (Self, Option<ActivationAction<C>>) {
        (
            self.at(Activation::MakingRouter),
            Some(ActivationAction::MakeRouter(self.router_mode)),
        )
    }

    /// `self` with `inner` to route prefills, and the last action. The first router
    /// to be put in place stays.
    pub open spec fn with_router(
        self,
        inner: InnerPrefillRouter<K, S>,
    ) -> (Self, Option<ActivationAction<C>>) {
        let prefill_router = match self.prefill_router {
            Some(first) => Some(first),
            None => Some(inner),
        };
        (
            PrefillRouter { prefill_router, activation: Activation::Active, ..self },
            Some(ActivationAction::Complete),
        )
    }

    /// `self` after `event`, and the next action. An event that answers nothing that
    /// was asked for changes nothing, and no action follows.
    pub open spec fn after_event(self, event: ActivationEvent<K, S>) -> (
        Self,
        Option<ActivationAction<C>>,
    ) {
        match (self.activation, event) {
            (
                Activation::Waiting { kv_cache_block_size, kv_router_config },
                ActivationEvent::EndpointReceived(endpoint_id),
            ) => self.activating(endpoint_id, kv_cache_block_size, kv_router_config),
            (Activation::Waiting { .. }, ActivationEvent::ChannelClosed) => {
                (self.at(Activation::Stopped), Some(ActivationAction::Stop))
            },
            (Activation::Waiting { .. }, ActivationEvent::Cancelled) => {
                (self.at(Activation::Stopped), Some(ActivationAction::Stop))
            },
            (
                Activation::Watching { kv_cache_block_size, kv_router_config },
                ActivationEvent::WatcherStarted(result),
            ) => match result {
                Err(text) => self.failing(text),
                Ok(_) => if self.router_mode == RouterMode::KV {
                    (
                        self.at(Activation::MakingChooser),
                        Some(
                            ActivationAction::MakeChooser {
                                kv_cache_block_size,
                                kv_router_config,
                                worker_type: WorkerType::Prefill,
                            },
                        ),
                    )
                } else {
                    (self.at(Activation::MakingClient), Some(ActivationAction::MakeClient))
                },
            },
            (Activation::MakingChooser, ActivationEvent::ChooserMade(result)) => match result {
                Err(text) => self.failing(text),
                Ok(_) => self.with_client(),
            },
            (Activation::MakingClient, ActivationEvent::ClientMade(result)) => match result {
                Err(text) => self.failing(text),
                Ok(_) => self.with_client(),
            },
            (Activation::FindingMonitor, ActivationEvent::MonitorLookedUp(found)) => if found {
                (self.at(Activation::TellingMonitor), Some(ActivationAction::TellMonitor))
            } else {
                self.with_monitor()
            },
            (Activation::TellingMonitor, ActivationEvent::MonitorTold) => self.with_monitor(),
            (Activation::MakingRouter, ActivationEvent::KvRouterMade(result)) => if self.router_mode
                != RouterMode::KV {
                (self, None)
            } else {
                match result {
                    Err(text) => self.failing(text),
                    Ok(router) => self.with_router(InnerPrefillRouter::KvRouter(router)),
                }
            },
            (Activation::MakingRouter, ActivationEvent::SimpleRouterMade(result)) =>
            if self.router_mode == RouterMode::KV {
                (self, None)
            } else {
                match result {
                    Err(text) => self.failing(text),
                    Ok(router) => self.with_router(InnerPrefillRouter::SimpleRouter(router)),
                }
            },
            _ => (self, None),
        }
    }

    /// Goes on after `event`, from the wait for the endpoint to the end of the activation:
    /// says what is to be done next, or nothing where `event` answers nothing that was asked
    /// for. The endpoint is told at most once, and only to a router that waits for it: that
    /// is when the activation begins.
    pub fn on_activation_event(&mut self, event: ActivationEvent<K, S>) -> (action: Option<
        ActivationAction<C>,
    >)
        ensures
            (*final(self), action) == old(self).after_event(event),
            old(self).wf() ==> final(self).wf(),
    {
        let mut stage = Activation::Stopped;
        std::mem::swap(&mut stage, &mut self.activation);
        match (stage, event) {
            (
                Activation::Waiting { kv_cache_block_size, kv_router_config },
                ActivationEvent::EndpointReceived(endpoint_id),
            ) => self.activate(endpoint_id, kv_cache_block_size, kv_router_config),
            (Activation::Waiting { .. }, ActivationEvent::ChannelClosed) => {
                Some(ActivationAction::Stop)
            },
            (Activation::Waiting { .. }, ActivationEvent::Cancelled) => {
                Some(ActivationAction::Stop)
            },
            (
                Activation::Watching { kv_cache_block_size, kv_router_config },
                ActivationEvent::WatcherStarted(result),
            ) => match result {
                Err(text) => self.fail_activation(text),
                Ok(_) => if self.router_mode.is_kv_routing() {
                    self.activation = Activation::MakingChooser;
                    Some(
                        ActivationAction::MakeChooser {
                            kv_cache_block_size,
                            kv_router_config,
                            worker_type: WorkerType::Prefill,
                        },
                    )
                } else {
                    self.activation = Activation::MakingClient;
                    Some(ActivationAction::MakeClient)
                },
            },
            (Activation::MakingChooser, ActivationEvent::ChooserMade(result)) => match result {
                Err(text) => self.fail_activation(text),
                Ok(_) => self.find_monitor(),
            },
            (Activation::MakingClient, ActivationEvent::ClientMade(result)) => match result {
                Err(text) => self.fail_activation(text),
                Ok(_) => self.find_monitor(),
            },
            (Activation::FindingMonitor, ActivationEvent::MonitorLookedUp(found)) => if found {
                self.activation = Activation::TellingMonitor;
                Some(ActivationAction::TellMonitor)
            } else {
                self.make_router()
            },
            (Activation::TellingMonitor, ActivationEvent::MonitorTold) => self.make_router(),
            (Activation::MakingRouter, ActivationEvent::KvRouterMade(result)) => {
                if !self.router_mode.is_kv_routing() {
                    self.activation = Activation::MakingRouter;
                    return None;
                }
                match result {
                    Err(text) => self.fail_activation(text),
                    Ok(router) => self.put_in_place(InnerPrefillRouter::KvRouter(router)),
                }
            },
            (Activation::MakingRouter, ActivationEvent::SimpleRouterMade(result)) => {
                if self.router_mode.is_kv_routing() {
                    self.activation = Activation::MakingRouter;
                    return None;
                }
                match result {
                    Err(text) => self.fail_activation(text),
                    Ok(router) => self.put_in_place(InnerPrefillRouter::SimpleRouter(router)),
                }
            },
            (stage, _) => {
                self.activation = stage;
                None
            },
        }
    }

    /// Begins with the activation, whatever went before. The first endpoint to be set stays.
    fn activate(
        &mut self,
        endpoint_id: EndpointId,
        kv_cache_block_size: u32,
        kv_router_config: Option<C>,
    ) -> (action: Option<ActivationAction<C>>)
        ensures
            (*final(self), action) == old(self).activating(
                endpoint_id,
                kv_cache_block_size,
                kv_router_config,
            ),
    {
        if self.endpoint_id.is_none() {
            self.endpoint_id = Some(endpoint_id);
        }
        self.activation = Activation::Watching { kv_cache_block_size, kv_router_config };
        Some(ActivationAction::StartWatcher)
    }

    fn fail_activation(&mut self, text: String) -> (action: Option<ActivationAction<C>>)
        ensures
            (*final(self), action) == old(self).failing(text),
    {
        self.activation = Activation::Failed(text.clone());
        Some(ActivationAction::Fail(text))
    }

    fn find_monitor(&mut self) -> (action: Option<ActivationAction<C>>)
        ensures
            (*final(self), action) == old(self).with_client(),
    {
        self.activation = Activation::FindingMonitor;
        Some(ActivationAction::FindMonitor(self.model_name.clone()))
    }

    fn make_router(&mut self) -> (action: Option<ActivationAction<C>>)
        ensures
            (*final(self), action) == old(self).with_monitor(),
    {
        self.activation = Activation::MakingRouter;
        Some(ActivationAction::MakeRouter(self.router_mode))
    }

    fn put_in_place(&mut self, inner: InnerPrefillRouter<K, S>) -> (action: Option<
        ActivationAction<C>,
    >)
        ensures
            (*final(self), action) == old(self).with_router(inner),
    {
        if self.prefill_router.is_none() {
            self.prefill_router = Some(inner);
        }
        self.activation = Activation::Active;
        Some(ActivationAction::Complete)
    }
}

} // verus!
