use vstd::prelude::*;

use crate::policy::RetryDecision;

verus! {

/// The four queue counters. Each one stops at its bounds (`0` and
/// `usize::MAX`) rather than wrapping.
#[derive(Debug, Clone, Copy, PartialEq, Eq, Structural)]
pub struct QueueStats {
    /// Jobs waiting in the backend.
    pub pending: usize,
    /// Jobs inside a handler invocation.
    pub processing: usize,
    /// Jobs that succeeded, over the queue's life.
    pub completed: usize,
    /// Jobs that failed for good, over the queue's life.
    pub failed: usize,
}

/// One more, stopping at `usize::MAX`.
pub open spec fn inc(x: usize) -> usize {
    if x < usize::MAX {
        (x + 1) as usize
    } else {
        x
    }
}

/// One less, stopping at `0`.
pub open spec fn dec(x: usize) -> usize {
    if x > 0 {
        (x - 1) as usize
    } else {
        0
    }
}

/// The counters after a job reached the backend.
pub open spec fn after_enqueued(s: QueueStats) -> QueueStats {
    QueueStats { pending: inc(s.pending), ..s }
}

/// The counters after a worker took a job out of the backend.
pub open spec fn after_started(s: QueueStats) -> QueueStats {
    QueueStats { pending: dec(s.pending), processing: inc(s.processing), ..s }
}

/// The counters after the handler reported on a job and the policy decided.
pub open spec fn after_finished(s: QueueStats, d: RetryDecision) -> QueueStats {
    let s1 = QueueStats { processing: dec(s.processing), ..s };
    match d {
        RetryDecision::Complete => QueueStats { completed: inc(s1.completed), ..s1 },
        RetryDecision::Fail { .. } => QueueStats { failed: inc(s1.failed), ..s1 },
        RetryDecision::Requeue { .. } => s1,
    }
}

/// The counters after a job was lost for good outside a handler (a retry
/// the backend refused, a record that could not be read).
pub open spec fn after_dropped(s: QueueStats) -> QueueStats {
    QueueStats { failed: inc(s.failed), ..s }
}

fn bump(x: usize) -> (r: usize)
    ensures
        r == inc(x),
{
    x.saturating_add(1)
}

fn drop_one(x: usize) -> (r: usize)
    ensures
        r == dec(x),
{
    x.saturating_sub(1)
}

impl QueueStats {
    /// All four counters at zero.
    pub open spec fn spec_zero() -> QueueStats {
        QueueStats { pending: 0, processing: 0, completed: 0, failed: 0 }
    }

    /// All four counters at zero.
    pub fn zero() -> (r: QueueStats)
        ensures
            r == QueueStats::spec_zero(),
    {
        QueueStats { pending: 0, processing: 0, completed: 0, failed: 0 }
    }

    /// Counts a job that reached the backend.
    pub fn record_enqueued(&mut self)
        ensures
            *final(self) == after_enqueued(*old(self)),
    {
        self.pending = bump(self.pending);
    }

    /// Moves a job from `pending` to `processing`.
    pub fn record_started(&mut self)
        ensures
            *final(self) == after_started(*old(self)),
    {
        self.pending = drop_one(self.pending);
        self.processing = bump(self.processing);
    }

    /// Counts the end of a handler invocation and the decision taken on it.
    pub fn record_finished(&mut self, d: &RetryDecision)
        ensures
            *final(self) == after_finished(*old(self), *d),
    {
        self.processing = drop_one(self.processing);
        match d {
            RetryDecision::Complete => {
                self.completed = bump(self.completed);
            },
            RetryDecision::Fail { .. } => {
                self.failed = bump(self.failed);
            },
            RetryDecision::Requeue { .. } => {},
        }
    }

    /// Counts a job lost for good outside a handler.
    pub fn record_dropped(&mut self)
        ensures
            *final(self) == after_dropped(*old(self)),
    {
        self.failed = bump(self.failed);
    }
}

/// A job that enters an idle-or-busy queue and succeeds on its first attempt
/// adds exactly one to `completed` and leaves `pending`, `processing` and
/// `failed` where they were.
pub proof fn lemma_success_round_trip(s: QueueStats, attempts: u32, max_attempts: u32, base_delay_ms: u32)
    requires
        s.pending < usize::MAX,
        s.processing < usize::MAX,
        s.completed < usize::MAX,
    ensures
        ({
            let d = crate::policy::retry_decision(
                attempts,
                max_attempts,
                crate::job::JobResult::Success,
                base_delay_ms,
            );
            let s3 = after_finished(after_started(after_enqueued(s)), d);
            &&& s3.completed == s.completed + 1
            &&& s3.pending == s.pending
            &&& s3.processing == s.processing
            &&& s3.failed == s.failed
        }),
{
}

/// A decision to fail for good is counted in `failed` and never in `completed`.
pub proof fn lemma_failure_counted_once(s: QueueStats, reason: String)
    requires
        s.failed < usize::MAX,
    ensures
        after_finished(s, RetryDecision::Fail { reason }).failed == s.failed + 1,
        after_finished(s, RetryDecision::Fail { reason }).completed == s.completed,
{
}

} // verus!
