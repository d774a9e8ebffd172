//! Bounded, immediate retry of a failed continuation.

use vstd::prelude::*;
use crate::error::ExportError;
use crate::json::Json;
use crate::query::ContinueParams;

verus! {

/// What follows one continuation attempt.
#[derive(Debug, PartialEq)]
pub enum Verdict {
    /// The attempt succeeded, or failed with no retry left: hand this back.
    Done(Result<(String, Vec<Json>, u64), ExportError>),
    /// Report `cause`, then attempt again at once with the parameters
    /// `next`, which are those of the attempt that failed, and with
    /// `remaining` retries left.
    Again { remaining: i32, cause: ExportError, next: ContinueParams },
}

/// The verdict on the attempt `attempt`, made with `remaining` retries left.
pub open spec fn verdict(
    attempt: ContinueParams,
    remaining: i32,
    outcome: Result<(String, Vec<Json>, u64), ExportError>,
) -> Verdict {
    match outcome {
        Ok(page) => Verdict::Done(Ok(page)),
        Err(cause) => if remaining > 0 {
            Verdict::Again { remaining: (remaining - 1) as i32, cause, next: attempt }
        } else {
            Verdict::Done(Err(cause))
        },
    }
}

/// Decides what follows the continuation attempt `attempt`, made with
/// `remaining` retries left: a success is handed back; a failure is retried
/// while a retry is left, with the token and window of the attempt that
/// failed, and handed back unchanged when none is.
pub fn after_attempt(
    attempt: ContinueParams,
    remaining: i32,
    outcome: Result<(String, Vec<Json>, u64), ExportError>,
) -> (r: Verdict)
    ensures
        r == verdict(attempt, remaining, outcome),
        r matches Verdict::Again { next, .. } ==> next == attempt,
{
    match outcome {
        Ok(page) => Verdict::Done(Ok(page)),
        Err(cause) => if remaining > 0 {
            Verdict::Again { remaining: remaining - 1, cause, next: attempt }
        } else {
            Verdict::Done(Err(cause))
        },
    }
}

/// A retried continuation over the outcomes that its attempts meet, in
/// order: the number of attempts made, and the result handed back if the
/// outcomes reach as far as a verdict that is final. Every attempt is made
/// with the parameters that the verdict before it gave.
pub open spec fn run(
    attempt: ContinueParams,
    max_retries: i32,
    outcomes: Seq<Result<(String, Vec<Json>, u64), ExportError>>,
) -> (nat, Option<Result<(String, Vec<Json>, u64), ExportError>>)
    decreases outcomes.len(),
{
    if outcomes.len() == 0 {
        (0, None)
    } else {
        match verdict(attempt, max_retries, outcomes[0]) {
            Verdict::Done(result) => (1, Some(result)),
            Verdict::Again { remaining, next, .. } => {
                let rest = run(next, remaining, outcomes.skip(1));
                (rest.0 + 1, rest.1)
            },
        }
    }
}

/// With `max_retries` retries and a continuation that fails every time,
/// one attempt and `max_retries` retries are made, and the error of the
/// last attempt is handed back.
pub proof fn lemma_always_failing(
    attempt: ContinueParams,
    max_retries: i32,
    outcomes: Seq<Result<(String, Vec<Json>, u64), ExportError>>,
)
    requires
        0 <= max_retries < outcomes.len(),
        forall|i: int| 0 <= i <= max_retries ==> outcomes[i] is Err,
    ensures
        run(attempt, max_retries, outcomes) == (
            (max_retries + 1) as nat,
            Some(outcomes[max_retries as int]),
        ),
    decreases max_retries,
{
    assert(outcomes[0] is Err);
    if max_retries > 0 {
        let rest = outcomes.skip(1);
        assert forall|i: int| 0 <= i <= max_retries - 1 implies rest[i] is Err by {
            assert(rest[i] == outcomes[i + 1]);
        }
        lemma_always_failing(attempt, (max_retries - 1) as i32, rest);
        assert(rest[max_retries - 1] == outcomes[max_retries as int]);
    }
}

/// With `max_retries` retries and a continuation that fails `failures`
/// times, `failures` no more than `max_retries`, and then succeeds, the
/// success is handed back after `failures + 1` attempts.
pub proof fn lemma_succeeds_after(
    attempt: ContinueParams,
    max_retries: i32,
    failures: int,
    outcomes: Seq<Result<(String, Vec<Json>, u64), ExportError>>,
)
    requires
        0 <= failures <= max_retries,
        failures < outcomes.len(),
        forall|i: int| 0 <= i < failures ==> outcomes[i] is Err,
        outcomes[failures] is Ok,
    ensures
        run(attempt, max_retries, outcomes) == ((failures + 1) as nat, Some(outcomes[failures])),
    decreases failures,
{
    if failures > 0 {
        let rest = outcomes.skip(1);
        assert(outcomes[0] is Err);
        assert forall|i: int| 0 <= i < failures - 1 implies rest[i] is Err by {
            assert(rest[i] == outcomes[i + 1]);
        }
        assert(rest[failures - 1] == outcomes[failures]);
        lemma_succeeds_after(attempt, (max_retries - 1) as i32, failures - 1, rest);
    }
}

} // verus!
