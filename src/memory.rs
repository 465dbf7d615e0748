use std::collections::VecDeque;
use vstd::prelude::*;

use crate::error::JobQueueError;
use crate::job::{job_is_due, next_attempt, Job, JobResult};
use crate::policy::{decide_retry, retry_decision, RetryDecision, DEFAULT_BASE_DELAY_MS};
use crate::stats::{after_dropped, after_enqueued, after_finished, after_started, QueueStats};
use crate::worker::DEFAULT_WORKERS;

verus! {

/// Settings of the in-process backend.
#[derive(Debug, Clone, Copy, PartialEq, Eq, Structural)]
pub struct InMemoryJobQueueConfig {
    /// Capacity bound on pending jobs; `0` leaves the queue unbounded.
    pub max_size: usize,
    /// Number of workers to run against the queue.
    pub workers: usize,
}

impl Default for InMemoryJobQueueConfig {
    fn default() -> (r: Self)
        ensures
            r.max_size == 10000 && r.workers == DEFAULT_WORKERS,
    {
        InMemoryJobQueueConfig { max_size: 10000, workers: DEFAULT_WORKERS }
    }
}

/// Whether a queue with these counters and this bound refuses a new job: it
/// holds `max_size` pending jobs already (for a nonzero bound), or as many as
/// a counter can count.
pub open spec fn queue_is_full(stats: QueueStats, max_size: usize) -> bool {
    (max_size > 0 && stats.pending >= max_size) || stats.pending == usize::MAX
}

/// Index of the oldest job in `jobs` that is due at `now_ms`, or the length
/// of `jobs` when none is.
pub open spec fn first_due(jobs: Seq<Job>, now_ms: i64) -> int
    decreases jobs.len(),
{
    if jobs.len() == 0 {
        0
    } else if job_is_due(jobs[0], now_ms) {
        0
    } else {
        1 + first_due(jobs.drop_first(), now_ms)
    }
}

proof fn lemma_first_due_at(jobs: Seq<Job>, now_ms: i64, k: int)
    requires
        0 <= k <= jobs.len(),
        forall|j: int| 0 <= j < k ==> !job_is_due(#[trigger] jobs[j], now_ms),
        k == jobs.len() || job_is_due(jobs[k], now_ms),
    ensures
        first_due(jobs, now_ms) == k,
    decreases jobs.len(),
{
    if jobs.len() > 0 && k > 0 {
        assert(!job_is_due(jobs[0], now_ms));
        assert forall|j: int| 0 <= j < k - 1 implies !job_is_due(
            #[trigger] jobs.drop_first()[j],
            now_ms,
        ) by {
            assert(jobs.drop_first()[j] == jobs[j + 1]);
        }
        if k < jobs.len() {
            assert(jobs.drop_first()[k - 1] == jobs[k]);
        }
        lemma_first_due_at(jobs.drop_first(), now_ms, k - 1);
    }
}

/// The in-process backend: a bounded first-in first-out queue of jobs with
/// its counters. Jobs held here are lost when the process ends.
pub struct InMemoryJobQueue {
    config: InMemoryJobQueueConfig,
    jobs: VecDeque<Job>,
    stats: QueueStats,
}

impl InMemoryJobQueue {
    /// The jobs waiting, oldest first.
    pub closed spec fn spec_jobs(&self) -> Seq<Job> {
        self.jobs@
    }

    /// The counters.
    pub closed spec fn spec_stats(&self) -> QueueStats {
        self.stats
    }

    /// The settings the queue was made with.
    pub closed spec fn spec_config(&self) -> InMemoryJobQueueConfig {
        self.config
    }

    /// `pending` counts exactly the jobs waiting.
    pub closed spec fn wf(&self) -> bool {
        self.stats.pending == self.jobs@.len()
    }

    /// Whether `enqueue` would refuse a job now.
    pub open spec fn is_full(&self) -> bool {
        queue_is_full(self.spec_stats(), self.spec_config().max_size)
    }

    /// An empty queue with zeroed counters.
    pub fn new(config: InMemoryJobQueueConfig) -> (r: InMemoryJobQueue)
        ensures
            r.wf(),
            r.spec_config() == config,
            r.spec_jobs() == Seq::<Job>::empty(),
            r.spec_stats() == QueueStats::spec_zero(),
    {
        InMemoryJobQueue { config, jobs: VecDeque::new(), stats: QueueStats::zero() }
    }

    /// The settings the queue was made with.
    pub fn config(&self) -> (r: InMemoryJobQueueConfig)
        ensures
            r == self.spec_config(),
    {
        self.config
    }

    /// Adds a job at the back, or refuses it with `QueueFull` when the queue
    /// is full; a refused job changes nothing.
    pub fn enqueue(&mut self, job: Job) -> (r: Result<(), JobQueueError>)
        requires
            old(self).wf(),
        ensures
            final(self).wf(),
            final(self).spec_config() == old(self).spec_config(),
            r is Ok <==> !old(self).is_full(),
            r is Err ==> r->Err_0 is QueueFull,
            r is Err ==> {
                &&& final(self).spec_jobs() == old(self).spec_jobs()
                &&& final(self).spec_stats() == old(self).spec_stats()
            },
            r is Ok ==> {
                &&& final(self).spec_jobs() == old(self).spec_jobs().push(job)
                &&& final(self).spec_stats() == after_enqueued(old(self).spec_stats())
            },
    {
        if (self.config.max_size > 0 && self.stats.pending >= self.config.max_size)
            || self.stats.pending == usize::MAX {
            return Err(JobQueueError::QueueFull);
        }
        self.jobs.push_back(job);
        self.stats.record_enqueued();
        Ok(())
    }

    /// Takes the oldest job that is due at `now_ms` for a worker, counts the
    /// attempt it is about to get, and moves it from `pending` to
    /// `processing`; `None` when no job is due. Jobs that name no dispatch
    /// time leave in the order they came.
    pub fn dequeue(&mut self, now_ms: i64) -> (r: Option<Job>)
        requires
            old(self).wf(),
        ensures
            final(self).wf(),
            final(self).spec_config() == old(self).spec_config(),
            first_due(old(self).spec_jobs(), now_ms) == old(self).spec_jobs().len() ==> {
                &&& r is None
                &&& final(self).spec_jobs() == old(self).spec_jobs()
                &&& final(self).spec_stats() == old(self).spec_stats()
            },
            first_due(old(self).spec_jobs(), now_ms) < old(self).spec_jobs().len() ==> {
                let k = first_due(old(self).spec_jobs(), now_ms);
                &&& r == Some(
                    Job {
                        attempts: next_attempt(old(self).spec_jobs()[k].attempts),
                        ..old(self).spec_jobs()[k]
                    },
                )
                &&& final(self).spec_jobs() == old(self).spec_jobs().remove(k)
                &&& final(self).spec_stats() == after_started(old(self).spec_stats())
            },
    {
        let n = self.jobs.len();
        let mut i: usize = 0;
        while i < n
            invariant
                n == self.jobs@.len(),
                0 <= i <= n,
                forall|j: int| 0 <= j < i ==> !job_is_due(#[trigger] self.jobs@[j], now_ms),
            ensures
                0 <= i <= n,
                forall|j: int| 0 <= j < i ==> !job_is_due(#[trigger] self.jobs@[j], now_ms),
                i == n || job_is_due(self.jobs@[i as int], now_ms),
            decreases n - i,
        {
            if self.jobs[i].is_due(now_ms) {
                break;
            }
            i += 1;
        }
        proof {
            lemma_first_due_at(self.jobs@, now_ms, i as int);
        }
        if i == n {
            return None;
        }
        match self.jobs.remove(i) {
            Some(job) => {
                self.stats.record_started();
                Some(job.start_attempt())
            },
            None => None,
        }
    }

    /// Records the handler's report on `job` (whose counter already holds
    /// this attempt) and returns what the retry policy decided. On
    /// `Requeue` the caller submits the job again through `requeue` once the
    /// delay has passed.
    pub fn finish(&mut self, job: &Job, result: JobResult) -> (r: RetryDecision)
        requires
            old(self).wf(),
        ensures
            final(self).wf(),
            final(self).spec_config() == old(self).spec_config(),
            r == retry_decision(job.attempts, job.max_attempts, result, DEFAULT_BASE_DELAY_MS),
            final(self).spec_jobs() == old(self).spec_jobs(),
            final(self).spec_stats() == after_finished(old(self).spec_stats(), r),
    {
        let d = decide_retry(job.attempts, job.max_attempts, result, DEFAULT_BASE_DELAY_MS);
        self.stats.record_finished(&d);
        d
    }

    /// Submits a job again for a retry. The capacity bound does not apply,
    /// so that a retry is never refused for room; only a queue whose counter
    /// is at its limit refuses it, and the job then counts as failed.
    pub fn requeue(&mut self, job: Job) -> (r: Result<(), JobQueueError>)
        requires
            old(self).wf(),
        ensures
            final(self).wf(),
            final(self).spec_config() == old(self).spec_config(),
            r is Ok <==> old(self).spec_stats().pending < usize::MAX,
            r is Err ==> {
                &&& r->Err_0 is QueueFull
                &&& final(self).spec_jobs() == old(self).spec_jobs()
                &&& final(self).spec_stats() == after_dropped(old(self).spec_stats())
            },
            r is Ok ==> {
                &&& final(self).spec_jobs() == old(self).spec_jobs().push(job)
                &&& final(self).spec_stats() == after_enqueued(old(self).spec_stats())
            },
    {
        if self.stats.pending == usize::MAX {
            self.stats.record_dropped();
            return Err(JobQueueError::QueueFull);
        }
        self.jobs.push_back(job);
        self.stats.record_enqueued();
        Ok(())
    }

    /// A snapshot of the counters.
    pub fn stats(&self) -> (r: QueueStats)
        ensures
            r == self.spec_stats(),
    {
        self.stats
    }
}

} // verus!
