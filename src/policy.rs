use vstd::prelude::*;

use crate::job::{next_attempt, JobResult};

verus! {

/// Delay unit of the linear backoff between attempts, in milliseconds.
pub const DEFAULT_BASE_DELAY_MS: u32 = 100;

/// What a worker does with a job once the handler has reported.
#[derive(Debug, Clone)]
pub enum RetryDecision {
    /// The job succeeded; nothing more to do.
    Complete,
    /// Submit the job to the backend again, no earlier than `delay_ms` from now.
    Requeue { delay_ms: u64 },
    /// The job failed for good; `reason` is the handler's last word on it.
    Fail { reason: String },
}

/// The retry policy. `attempts` already counts the invocation that
/// produced `result`.
pub open spec fn retry_decision(
    attempts: u32,
    max_attempts: u32,
    result: JobResult,
    base_delay_ms: u32,
) -> RetryDecision {
    match result {
        JobResult::Success => RetryDecision::Complete,
        JobResult::Failed(reason) => RetryDecision::Fail { reason },
        JobResult::Retry(reason) => if attempts < max_attempts {
            RetryDecision::Requeue { delay_ms: (base_delay_ms * attempts) as u64 }
        } else {
            RetryDecision::Fail { reason }
        },
    }
}

/// Applies the retry policy to one outcome.
pub fn decide_retry(attempts: u32, max_attempts: u32, result: JobResult, base_delay_ms: u32) -> (r:
    RetryDecision)
    ensures
        r == retry_decision(attempts, max_attempts, result, base_delay_ms),
{
    match result {
        JobResult::Success => RetryDecision::Complete,
        JobResult::Failed(reason) => RetryDecision::Fail { reason },
        JobResult::Retry(reason) => {
            if attempts < max_attempts {
                let b = base_delay_ms as u64;
                let a = attempts as u64;
                assert(b * a <= u32::MAX * u32::MAX) by (nonlinear_arith)
                    requires
                        b <= u32::MAX,
                        a <= u32::MAX,
                ;
                RetryDecision::Requeue { delay_ms: b * a }
            } else {
                RetryDecision::Fail { reason }
            }
        },
    }
}

/// How many times a job whose counter stands at `attempts` is handed to the
/// handler, when the handler answers the successive invocations with
/// `outcomes` (a run that outlasts `outcomes` is cut off there).
pub open spec fn handler_invocations(attempts: u32, max_attempts: u32, outcomes: Seq<JobResult>) -> nat
    decreases outcomes.len(),
{
    if outcomes.len() == 0 {
        0
    } else {
        let a = next_attempt(attempts);
        match retry_decision(a, max_attempts, outcomes[0], DEFAULT_BASE_DELAY_MS) {
            RetryDecision::Requeue { .. } => 1 + handler_invocations(
                a,
                max_attempts,
                outcomes.drop_first(),
            ),
            _ => 1,
        }
    }
}

/// The decision that ends the run described by `handler_invocations`, if
/// the run ends within `outcomes`.
pub open spec fn terminal_decision(attempts: u32, max_attempts: u32, outcomes: Seq<JobResult>) -> Option<
    RetryDecision,
>
    decreases outcomes.len(),
{
    if outcomes.len() == 0 {
        None
    } else {
        let a = next_attempt(attempts);
        match retry_decision(a, max_attempts, outcomes[0], DEFAULT_BASE_DELAY_MS) {
            RetryDecision::Requeue { .. } => terminal_decision(
                a,
                max_attempts,
                outcomes.drop_first(),
            ),
            d => Some(d),
        }
    }
}

/// A job is sent back only while its counter is below its budget, so the
/// invocation it gets next still leaves `attempts <= max_attempts`.
pub proof fn lemma_requeued_within_budget(
    attempts: u32,
    max_attempts: u32,
    result: JobResult,
    base_delay_ms: u32,
)
    requires
        retry_decision(attempts, max_attempts, result, base_delay_ms) is Requeue,
    ensures
        attempts < max_attempts,
        next_attempt(attempts) <= max_attempts,
{
}

proof fn lemma_invocations_within_budget(attempts: u32, max_attempts: u32, outcomes: Seq<JobResult>)
    requires
        attempts < max_attempts,
    ensures
        handler_invocations(attempts, max_attempts, outcomes) <= max_attempts - attempts,
    decreases outcomes.len(),
{
    if outcomes.len() > 0 {
        let a = next_attempt(attempts);
        if a < max_attempts {
            lemma_invocations_within_budget(a, max_attempts, outcomes.drop_first());
        }
    }
}

/// A job created with a budget of `k >= 1` attempts is handed to the handler
/// at most `k` times, whatever the handler answers.
pub proof fn lemma_at_most_k_invocations(k: u32, outcomes: Seq<JobResult>)
    requires
        k >= 1,
    ensures
        handler_invocations(0, k, outcomes) <= k,
{
    lemma_invocations_within_budget(0, k, outcomes);
}

proof fn lemma_always_retry_from(attempts: u32, max_attempts: u32, outcomes: Seq<JobResult>)
    requires
        attempts < max_attempts,
        outcomes.len() >= max_attempts - attempts,
        forall|i: int| 0 <= i < outcomes.len() ==> #[trigger] outcomes[i] is Retry,
    ensures
        handler_invocations(attempts, max_attempts, outcomes) == max_attempts - attempts,
        terminal_decision(attempts, max_attempts, outcomes) == Some(
            RetryDecision::Fail { reason: outcomes[max_attempts - attempts - 1]->Retry_0 },
        ),
    decreases outcomes.len(),
{
    let a = next_attempt(attempts);
    assert(outcomes[0] is Retry);
    if a < max_attempts {
        let rest = outcomes.drop_first();
        assert forall|i: int| 0 <= i < rest.len() implies #[trigger] rest[i] is Retry by {
            assert(rest[i] == outcomes[i + 1]);
        }
        lemma_always_retry_from(a, max_attempts, rest);
        assert(rest[max_attempts - a - 1] == outcomes[max_attempts - attempts - 1]);
    }
}

/// A job with a budget of `k >= 1` whose handler always answers `Retry` is
/// handed to the handler exactly `k` times (the first attempt and `k - 1`
/// retries) and then fails for good, keeping the last reason.
pub proof fn lemma_always_retry_fails_after_k(k: u32, outcomes: Seq<JobResult>)
    requires
        k >= 1,
        outcomes.len() >= k,
        forall|i: int| 0 <= i < outcomes.len() ==> #[trigger] outcomes[i] is Retry,
    ensures
        handler_invocations(0, k, outcomes) == k,
        terminal_decision(0, k, outcomes) == Some(
            RetryDecision::Fail { reason: outcomes[k - 1]->Retry_0 },
        ),
{
    lemma_always_retry_from(0, k, outcomes);
}

} // verus!
