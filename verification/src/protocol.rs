//! The requests that are routed and the answers that prefill workers give.

use crate::shared::share;
use serde_json::Value;
use std::sync::Arc;
use vstd::prelude::*;

verus! {

/// The bit pattern of the `f64` zero.
pub const ZERO_WEIGHT: u64 = 0;

/// The number of tokens that a prefill generates.
pub const PREFILL_MAX_TOKENS: u32 = 1;

/// When the generation for a request ends.
#[derive(Debug, Clone, Copy)]
pub struct StopConditions {
    pub max_tokens: Option<u32>,
}

/// Where a request wishes to be routed.
#[derive(Debug)]
pub struct RoutingHints {
    pub prefill_worker_id: Option<u64>,
    pub decode_worker_id: Option<u64>,
    pub dp_rank: Option<u32>,
    pub lora_name: Option<String>,
}

impl RoutingHints {
    /// Hints that ask for nothing.
    pub open spec fn none() -> RoutingHints {
        RoutingHints {
            prefill_worker_id: None,
            decode_worker_id: None,
            dp_rank: None,
            lora_name: None,
        }
    }
}

impl Default for RoutingHints {
    fn default() -> (hints: Self)
        ensures
            hints == RoutingHints::none(),
    {
        RoutingHints {
            prefill_worker_id: None,
            decode_worker_id: None,
            dp_rank: None,
            lora_name: None,
        }
    }
}

impl Clone for RoutingHints {
    fn clone(&self) -> (copy: Self)
        ensures
            copy == *self,
    {
        RoutingHints {
            prefill_worker_id: self.prefill_worker_id,
            decode_worker_id: self.decode_worker_id,
            dp_rank: self.dp_rank,
            lora_name: self.lora_name.clone(),
        }
    }
}

/// Where the decode worker fetches from the prefill worker what the prefill computed.
#[derive(Debug)]
pub struct BootstrapInfo {
    pub bootstrap_host: String,
    pub bootstrap_port: u16,
    pub bootstrap_room: u64,
}

impl Clone for BootstrapInfo {
    fn clone(&self) -> (copy: Self)
        ensures
            copy == *self,
    {
        BootstrapInfo {
            bootstrap_host: self.bootstrap_host.clone(),
            bootstrap_port: self.bootstrap_port,
            bootstrap_room: self.bootstrap_room,
        }
    }
}

/// The settings of a router that one request overrides. The numbers are `f64` values,
/// given by their bit patterns.
#[derive(Debug, Clone, Copy)]
pub struct RouterConfigOverride {
    pub overlap_score_weight: Option<u64>,
    pub router_temperature: Option<u64>,
}

impl RouterConfigOverride {
    /// The override that overrides nothing.
    pub open spec fn none() -> RouterConfigOverride {
        RouterConfigOverride { overlap_score_weight: None, router_temperature: None }
    }
}

impl Default for RouterConfigOverride {
    fn default() -> (settings: Self)
        ensures
            settings == RouterConfigOverride::none(),
    {
        RouterConfigOverride { overlap_score_weight: None, router_temperature: None }
    }
}

/// How many of the prompt's tokens were of which kind.
#[derive(Debug, Clone, Copy)]
pub struct PromptTokensDetails {
    pub audio_tokens: Option<u32>,
    pub cached_tokens: Option<u32>,
}

/// What decoding needs from a prefill that has run.
#[derive(Debug)]
pub struct PrefillResult {
    pub disaggregated_params: Value,
    pub prompt_tokens_details: Option<PromptTokensDetails>,
}

/// The phase that a request is in.
#[derive(Debug, Clone, Copy, PartialEq, Eq, Structural)]
pub enum RequestPhase {
    Prefill,
    Decode,
}

/// A request, tokenized and ready to be routed. `T` is what tracks its progress and
/// `P` is all that routing does not look at; the copies of a request share both.
#[derive(Debug)]
pub struct PreprocessedRequest<P, T> {
    pub token_ids: Arc<Vec<u32>>,
    pub stop_conditions: StopConditions,
    pub annotations: Arc<Vec<String>>,
    pub routing: Option<RoutingHints>,
    pub router_config_override: Option<RouterConfigOverride>,
    pub prefill_result: Option<Arc<PrefillResult>>,
    pub bootstrap_info: Option<BootstrapInfo>,
    pub tracker: Option<Arc<T>>,
    pub payload: Arc<P>,
}

impl<P, T> Clone for PreprocessedRequest<P, T> {
    fn clone(&self) -> (copy: Self)
        ensures
            copy == *self,
    {
        PreprocessedRequest {
            token_ids: share(&self.token_ids),
            stop_conditions: self.stop_conditions,
            annotations: share(&self.annotations),
            routing: match &self.routing {
                Some(hints) => Some(hints.clone()),
                None => None,
            },
            router_config_override: self.router_config_override,
            prefill_result: match &self.prefill_result {
                Some(result) => Some(share(result)),
                None => None,
            },
            bootstrap_info: match &self.bootstrap_info {
                Some(info) => Some(info.clone()),
                None => None,
            },
            tracker: match &self.tracker {
                Some(tracker) => Some(share(tracker)),
                None => None,
            },
            payload: share(&self.payload),
        }
    }
}

impl<P, T> PreprocessedRequest<P, T> {
    /// The routing hints; those that ask for nothing where the request has none.
    pub open spec fn hints(self) -> RoutingHints {
        match self.routing {
            Some(hints) => hints,
            None => RoutingHints::none(),
        }
    }

    /// The overridden router settings; none where the request overrides nothing.
    pub open spec fn settings(self) -> RouterConfigOverride {
        match self.router_config_override {
            Some(settings) => settings,
            None => RouterConfigOverride::none(),
        }
    }

    /// The request that the prefill gets for `self`: it stops after its first token.
    pub open spec fn as_prefill(self) -> Self {
        PreprocessedRequest {
            stop_conditions: StopConditions { max_tokens: Some(PREFILL_MAX_TOKENS) },
            ..self
        }
    }

    /// `self`, sent to a prefill worker that hands over its results at `info`.
    pub open spec fn bootstrapped(
        self,
        worker_id: u64,
        dp_rank: u32,
        info: BootstrapInfo,
    ) -> Self {
        PreprocessedRequest {
            routing: Some(
                RoutingHints {
                    prefill_worker_id: Some(worker_id),
                    dp_rank: Some(dp_rank),
                    ..self.hints()
                },
            ),
            bootstrap_info: Some(info),
            ..self
        }
    }

    /// The request that decoding gets for `self` after a prefill that gave `result`,
    /// or that gives its results at `info`.
    pub open spec fn as_decode(
        self,
        max_tokens: Option<u32>,
        result: Option<PrefillResult>,
        info: Option<BootstrapInfo>,
    ) -> Self {
        PreprocessedRequest {
            stop_conditions: StopConditions { max_tokens },
            prefill_result: match result {
                Some(result) => Some(Arc::new(result)),
                None => self.prefill_result,
            },
            bootstrap_info: match info {
                Some(info) => Some(info),
                None => self.bootstrap_info,
            },
            router_config_override: Some(
                RouterConfigOverride {
                    overlap_score_weight: Some(ZERO_WEIGHT),
                    ..self.settings()
                },
            ),
            ..self
        }
    }

    /// The prefill worker that the request asks for.
    pub fn preselected_worker(&self) -> (worker_id: Option<u64>)
        ensures
            worker_id == self.hints().prefill_worker_id,
    {
        match &self.routing {
            Some(hints) => hints.prefill_worker_id,
            None => None,
        }
    }

    /// The request that the prefill gets: it stops after its first token.
    pub fn prefill_request(&self) -> (prefill: Self)
        ensures
            prefill == self.as_prefill(),
    {
        let mut prefill = self.clone();
        prefill.stop_conditions.max_tokens = Some(PREFILL_MAX_TOKENS);
        prefill
    }

    /// Sends the request to a prefill worker that hands over its results at `info`.
    pub fn with_bootstrap(self, worker_id: u64, dp_rank: u32, info: BootstrapInfo) -> (routed: Self)
        ensures
            routed == self.bootstrapped(worker_id, dp_rank, info),
    {
        let mut hints = match self.routing {
            Some(hints) => hints,
            None => RoutingHints::default(),
        };
        hints.prefill_worker_id = Some(worker_id);
        hints.dp_rank = Some(dp_rank);
        PreprocessedRequest { routing: Some(hints), bootstrap_info: Some(info), ..self }
    }

    /// The request that decoding gets after the prefill: with the results of the
    /// prefill or the place where to get them, the given limit on tokens, and no weight
    /// on the overlap with what a worker has cached.
    pub fn decode_request(
        self,
        max_tokens: Option<u32>,
        result: Option<PrefillResult>,
        info: Option<BootstrapInfo>,
    ) -> (decode: Self)
        ensures
            decode == self.as_decode(max_tokens, result, info),
    {
        let mut decode = self;
        if let Some(result) = result {
            decode.prefill_result = Some(Arc::new(result));
        }
        decode.stop_conditions.max_tokens = max_tokens;
        if let Some(info) = info {
            decode.bootstrap_info = Some(info);
        }
        let existing = match decode.router_config_override {
            Some(settings) => settings,
            None => RouterConfigOverride::default(),
        };
        decode.router_config_override = Some(
            RouterConfigOverride { overlap_score_weight: Some(ZERO_WEIGHT), ..existing },
        );
        decode
    }
}

/// The use of tokens that a worker reports.
#[derive(Debug)]
pub struct CompletionUsage {
    pub prompt_tokens_details: Option<PromptTokensDetails>,
}

/// What the router reads of one output of an engine.
#[derive(Debug)]
pub struct LLMEngineOutput {
    pub completion_usage: Option<CompletionUsage>,
    pub disaggregated_params: Option<Value>,
}

/// One item of a response stream: an output or not, and the error that it reports, if any,
/// in its debug form (as `{:?}` writes it).
#[derive(Debug)]
pub struct Annotated {
    pub data: Option<LLMEngineOutput>,
    pub error: Option<String>,
}

impl Annotated {
    /// The details on the prompt's tokens that the item holds.
    pub open spec fn details(self) -> Option<PromptTokensDetails> {
        match self.data {
            Some(output) => match output.completion_usage {
                Some(usage) => usage.prompt_tokens_details,
                None => None,
            },
            None => None,
        }
    }

    /// The details on the prompt's tokens that the item holds.
    pub fn prompt_tokens_details(&self) -> (details: Option<PromptTokensDetails>)
        ensures
            details == self.details(),
    {
        match &self.data {
            Some(output) => match &output.completion_usage {
                Some(usage) => usage.prompt_tokens_details,
                None => None,
            },
            None => None,
        }
    }
}

} // verus!
