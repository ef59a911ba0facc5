//! What can go wrong on the way through the prefill stage.

use vstd::prelude::*;
use vstd::string::*;

verus! {

/// Why a prefill did not deliver.
#[derive(Debug)]
pub enum PrefillError {
    /// No prefill router is in place yet.
    NotActivated,
    /// The prefill could not be routed, or its execution failed.
    PrefillError(String),
    /// The prefill answered, but without what decoding needs from it.
    NoDisaggregatedParams(String),
}

/// A `PrefillError`, with its text as a sequence of characters.
pub enum PrefillErrorView {
    NotActivated,
    PrefillError(Seq<char>),
    NoDisaggregatedParams(Seq<char>),
}

impl View for PrefillError {
    type V = PrefillErrorView;

    open spec fn view(&self) -> PrefillErrorView {
        match self {
            PrefillError::NotActivated => PrefillErrorView::NotActivated,
            PrefillError::PrefillError(text) => PrefillErrorView::PrefillError(text@),
            PrefillError::NoDisaggregatedParams(text) => PrefillErrorView::NoDisaggregatedParams(
                text@,
            ),
        }
    }
}

impl PrefillErrorView {
    /// The error as a sentence.
    pub open spec fn sentence(self) -> Seq<char> {
        match self {
            PrefillErrorView::NotActivated => "Prefill router not yet activated"@,
            PrefillErrorView::PrefillError(text) => "Prefill execution failed: "@ + text,
            PrefillErrorView::NoDisaggregatedParams(text) =>
                "No disaggregated params in prefill response: "@ + text,
        }
    }
}

impl PrefillError {
    /// The error as a sentence.
    pub fn message(&self) -> (sentence: String)
        ensures
            sentence@ == self@.sentence(),
    {
        match self {
            PrefillError::NotActivated => "Prefill router not yet activated".to_string(),
            PrefillError::PrefillError(text) => "Prefill execution failed: ".to_string().concat(
                text.as_str(),
            ),
            PrefillError::NoDisaggregatedParams(text) =>
                "No disaggregated params in prefill response: ".to_string().concat(text.as_str()),
        }
    }
}

/// Why a request was not handed on to decoding.
#[derive(Debug)]
pub enum GenerateError {
    /// The prefill failed, and a request without prefill is not acceptable.
    Prefill(PrefillError),
    /// The request with this id was stopped or killed during the prefill.
    Interrupted(String),
}

impl GenerateError {
    /// The error as a sentence.
    pub open spec fn sentence(self) -> Seq<char> {
        match self {
            GenerateError::Prefill(error) => error@.sentence(),
            GenerateError::Interrupted(id) => "Context id "@ + id@ + " is stopped or killed"@,
        }
    }

    /// The error as a sentence.
    pub fn message(&self) -> (sentence: String)
        ensures
            sentence@ == self.sentence(),
    {
        match self {
            GenerateError::Prefill(error) => error.message(),
            GenerateError::Interrupted(id) => "Context id ".to_string().concat(id.as_str()).concat(
                " is stopped or killed",
            ),
        }
    }
}

} // verus!
