use prefill_router::error::{GenerateError, PrefillError};

#[test]
fn prefill_errors_read_as_sentences() {
    assert_eq!(PrefillError::NotActivated.message(), "Prefill router not yet activated");
    assert_eq!(
        PrefillError::PrefillError("no worker".to_string()).message(),
        "Prefill execution failed: no worker"
    );
    assert_eq!(
        PrefillError::NoDisaggregatedParams("empty".to_string()).message(),
        "No disaggregated params in prefill response: empty"
    );
}

#[test]
fn generate_errors_read_as_sentences() {
    assert_eq!(
        GenerateError::Interrupted("req-1".to_string()).message(),
        "Context id req-1 is stopped or killed"
    );
    assert_eq!(
        GenerateError::Prefill(PrefillError::PrefillError("boom".to_string())).message(),
        "Prefill execution failed: boom"
    );
    assert_eq!(
        GenerateError::Prefill(PrefillError::NotActivated).message(),
        "Prefill router not yet activated"
    );
}
