use scroll_export::error::{ExportError, Fault};
use scroll_export::json::Json;
use scroll_export::query::{plan_continue, ContinueParams};
use scroll_export::retry::{after_attempt, Verdict};

type Page = (String, Vec<Json>, u64);

fn failure(n: u32) -> ExportError {
    ExportError::TransportFailure(format!("attempt {} timed out", n))
}

fn held() -> ContinueParams {
    plan_continue("held")
}

fn page() -> Page {
    ("next".to_string(), vec![Json::Unsigned(1)], 9)
}

/// Runs the retry loop over a continuation that fails `failures` times and
/// then succeeds; gives the result, the attempts made, the causes reported
/// and the tokens used.
fn drive(max_retries: i32, failures: u32) -> (Result<Page, ExportError>, u32, Vec<ExportError>, Vec<String>) {
    let mut attempt = held();
    let mut remaining = max_retries;
    let mut attempts = 0;
    let mut reported = Vec::new();
    let mut tokens = Vec::new();
    loop {
        attempts += 1;
        tokens.push(attempt.scroll_id.clone());
        let outcome = if attempts <= failures { Err(failure(attempts)) } else { Ok(page()) };
        match after_attempt(attempt, remaining, outcome) {
            Verdict::Done(result) => return (result, attempts, reported, tokens),
            Verdict::Again { remaining: left, cause, next } => {
                reported.push(cause);
                remaining = left;
                attempt = next;
            }
        }
    }
}

#[test]
fn success_is_handed_back() {
    assert_eq!(after_attempt(held(), 3, Ok(page())), Verdict::Done(Ok(page())));
    assert_eq!(after_attempt(held(), 0, Ok(page())), Verdict::Done(Ok(page())));
}

#[test]
fn failure_is_retried_while_a_retry_is_left() {
    assert_eq!(
        after_attempt(held(), 3, Err(failure(1))),
        Verdict::Again { remaining: 2, cause: failure(1), next: held() }
    );
    assert_eq!(
        after_attempt(held(), 1, Err(ExportError::ProtocolViolation(Fault::Hits))),
        Verdict::Again {
            remaining: 0,
            cause: ExportError::ProtocolViolation(Fault::Hits),
            next: held(),
        }
    );
    assert_eq!(
        after_attempt(held(), i32::MAX, Err(ExportError::BackendError(Json::Null))),
        Verdict::Again {
            remaining: i32::MAX - 1,
            cause: ExportError::BackendError(Json::Null),
            next: held(),
        }
    );
}

#[test]
fn failure_without_a_retry_left_is_handed_back_unchanged() {
    assert_eq!(after_attempt(held(), 0, Err(failure(4))), Verdict::Done(Err(failure(4))));
    assert_eq!(after_attempt(held(), -1, Err(failure(4))), Verdict::Done(Err(failure(4))));
    assert_eq!(after_attempt(held(), i32::MIN, Err(failure(4))), Verdict::Done(Err(failure(4))));
}

#[test]
fn always_failing_continuation_is_attempted_once_more_than_retries() {
    for retries in [0, 1, 3, 7] {
        let (result, attempts, reported, tokens) = drive(retries, u32::MAX);
        assert_eq!(attempts, retries as u32 + 1);
        assert_eq!(result, Err(failure(retries as u32 + 1)));
        assert_eq!(reported.len(), retries as usize);
        assert_eq!(tokens.len(), retries as usize + 1);
        assert!(tokens.iter().all(|t| t == "held"));
    }
}

#[test]
fn retry_is_made_with_the_token_that_failed() {
    match after_attempt(plan_continue("cursor-7"), 2, Err(failure(1))) {
        Verdict::Again { next, .. } => {
            assert_eq!(next, plan_continue("cursor-7"));
            assert_eq!(next.scroll, "10m");
        }
        other => panic!("unexpected: {:?}", other),
    }
}

#[test]
fn success_after_some_failures_is_returned() {
    for (retries, failures) in [(3, 0), (3, 1), (3, 3), (1, 1), (0, 0), (5, 2)] {
        let (result, attempts, reported, _) = drive(retries, failures);
        assert_eq!(result, Ok(page()));
        assert_eq!(attempts, failures + 1);
        let causes: Vec<ExportError> = (1..=failures).map(failure).collect();
        assert_eq!(reported, causes);
    }
}

#[test]
fn one_failure_more_than_the_budget_fails() {
    let (result, attempts, _, _) = drive(2, 3);
    assert_eq!(result, Err(failure(3)));
    assert_eq!(attempts, 3);
}
