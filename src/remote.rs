use vstd::prelude::*;
use vstd::string::StringExecFns;

use crate::error::JobQueueError;
use crate::job::{next_attempt, Job, JobResult};
use crate::policy::{decide_retry, retry_decision, RetryDecision, DEFAULT_BASE_DELAY_MS};
use crate::stats::{after_dropped, after_enqueued, after_finished, after_started, QueueStats};
use crate::worker::{action_after_poll, PollOutcome, WorkerAction, WorkerControl, DEFAULT_WORKERS};

verus! {

/// Where the remote store is and how to reach it.
#[derive(Debug, Clone)]
pub struct RedisConfig {
    /// Address of the store, such as `redis://localhost:6379`.
    pub url: String,
    /// Longest wait for a connection, in seconds.
    pub connect_timeout_secs: u64,
    /// Whether to fall back to an in-process backend when the store is unreachable.
    pub fallback_to_memory: bool,
}

impl Default for RedisConfig {
    fn default() -> (r: Self)
        ensures
            r.url@ == "redis://localhost:6379"@,
            r.connect_timeout_secs == 5,
            r.fallback_to_memory,
    {
        RedisConfig {
            url: "redis://localhost:6379".to_owned(),
            connect_timeout_secs: 5,
            fallback_to_memory: true,
        }
    }
}

/// Settings of the remote list backend.
#[derive(Debug, Clone)]
pub struct RedisJobQueueConfig {
    /// Connection settings.
    pub redis: RedisConfig,
    /// Namespace of the queue's keys.
    pub queue_name: String,
    /// Number of workers to run against the queue.
    pub workers: usize,
    /// Longest blocking pop, in seconds.
    pub pop_timeout: u64,
}

impl Default for RedisJobQueueConfig {
    fn default() -> (r: Self)
        ensures
            r.redis.url@ == "redis://localhost:6379"@,
            r.redis.connect_timeout_secs == 5,
            r.redis.fallback_to_memory,
            r.queue_name@ == "jobs"@,
            r.workers == DEFAULT_WORKERS,
            r.pop_timeout == 5,
    {
        RedisJobQueueConfig {
            redis: RedisConfig::default(),
            queue_name: "jobs".to_owned(),
            workers: DEFAULT_WORKERS,
            pop_timeout: 5,
        }
    }
}

/// The key of the list that holds a queue's pending jobs.
pub open spec fn pending_key_of(queue_name: Seq<char>) -> Seq<char> {
    queue_name + ":pending"@
}

impl RedisJobQueueConfig {
    /// The key of the list that holds this queue's pending jobs.
    pub fn pending_key(&self) -> (r: String)
        ensures
            r@ == pending_key_of(self.queue_name@),
    {
        self.queue_name.clone().concat(":pending")
    }
}

/// This process's side of the remote list backend: its settings, its
/// counters, and the control of its workers. The list itself
/// lives in the store and is shared with other processes, so `pending` here
/// counts only what this process has seen.
pub struct RemoteQueueState {
    config: RedisJobQueueConfig,
    stats: QueueStats,
    control: WorkerControl,
}

impl RemoteQueueState {
    /// The counters.
    pub closed spec fn spec_stats(&self) -> QueueStats {
        self.stats
    }

    /// Whether workers have ever been started.
    pub closed spec fn spec_started(&self) -> bool {
        self.control.spec_started()
    }

    /// Whether workers are to keep running.
    pub closed spec fn spec_running(&self) -> bool {
        self.control.spec_running()
    }

    /// The settings.
    pub closed spec fn spec_config(&self) -> RedisJobQueueConfig {
        self.config
    }

    /// A state with zeroed counters whose workers have not been started.
    pub fn new(config: RedisJobQueueConfig) -> (r: RemoteQueueState)
        ensures
            r.spec_config() == config,
            r.spec_stats() == QueueStats::spec_zero(),
            !r.spec_started(),
            !r.spec_running(),
    {
        RemoteQueueState { config, stats: QueueStats::zero(), control: WorkerControl::new() }
    }

    /// The settings.
    pub fn config(&self) -> (r: &RedisJobQueueConfig)
        ensures
            *r == self.spec_config(),
    {
        &self.config
    }

    /// Starts the workers if they never were; returns whether this call
    /// started them.
    pub fn start(&mut self) -> (r: bool)
        ensures
            r == !old(self).spec_started(),
            final(self).spec_started(),
            r ==> final(self).spec_running(),
            !r ==> final(self).spec_running() == old(self).spec_running(),
            final(self).spec_stats() == old(self).spec_stats(),
            final(self).spec_config() == old(self).spec_config(),
    {
        self.control.start()
    }

    /// Signals shutdown: workers stop at their next poll boundary.
    pub fn stop(&mut self)
        ensures
            final(self).spec_started() == old(self).spec_started(),
            !final(self).spec_running(),
            final(self).spec_stats() == old(self).spec_stats(),
            final(self).spec_config() == old(self).spec_config(),
    {
        self.control.stop();
    }

    /// Whether workers are to keep running.
    pub fn is_running(&self) -> (r: bool)
        ensures
            r == self.spec_running(),
    {
        self.control.is_running()
    }

    /// Records the store's answer to pushing a new job and hands it back to
    /// the producer: a job that reached the list counts as pending.
    pub fn record_enqueue(&mut self, pushed: Result<(), JobQueueError>) -> (r: Result<
        (),
        JobQueueError,
    >)
        ensures
            r == pushed,
            final(self).spec_config() == old(self).spec_config(),
            final(self).spec_running() == old(self).spec_running(),
            final(self).spec_started() == old(self).spec_started(),
            pushed is Ok ==> final(self).spec_stats() == after_enqueued(old(self).spec_stats()),
            pushed is Err ==> final(self).spec_stats() == old(self).spec_stats(),
    {
        if pushed.is_ok() {
            self.stats.record_enqueued();
        }
        pushed
    }

    /// Takes a popped record for a worker: a record that could not be read
    /// as a job counts as failed at once, without retry; a job gets its
    /// attempt counted and moves from `pending` to `processing`.
    pub fn take(&mut self, decoded: Option<Job>) -> (r: Option<Job>)
        ensures
            final(self).spec_config() == old(self).spec_config(),
            final(self).spec_running() == old(self).spec_running(),
            final(self).spec_started() == old(self).spec_started(),
            decoded is None ==> r is None && final(self).spec_stats() == after_dropped(
                old(self).spec_stats(),
            ),
            decoded is Some ==> {
                &&& r == Some(Job { attempts: next_attempt(decoded->0.attempts), ..decoded->0 })
                &&& final(self).spec_stats() == after_started(old(self).spec_stats())
            },
    {
        match decoded {
            Some(job) => {
                self.stats.record_started();
                Some(job.start_attempt())
            },
            None => {
                self.stats.record_dropped();
                None
            },
        }
    }

    /// Records the handler's report on `job` and returns what the retry
    /// policy decided.
    pub fn finish(&mut self, job: &Job, result: JobResult) -> (r: RetryDecision)
        ensures
            r == retry_decision(job.attempts, job.max_attempts, result, DEFAULT_BASE_DELAY_MS),
            final(self).spec_config() == old(self).spec_config(),
            final(self).spec_running() == old(self).spec_running(),
            final(self).spec_started() == old(self).spec_started(),
            final(self).spec_stats() == after_finished(old(self).spec_stats(), r),
    {
        let d = decide_retry(job.attempts, job.max_attempts, result, DEFAULT_BASE_DELAY_MS);
        self.stats.record_finished(&d);
        d
    }

    /// Records the store's answer to pushing a job back for a retry: a job
    /// the store refused counts as failed, never silently lost.
    pub fn record_requeue(&mut self, pushed: bool)
        ensures
            final(self).spec_config() == old(self).spec_config(),
            final(self).spec_running() == old(self).spec_running(),
            final(self).spec_started() == old(self).spec_started(),
            pushed ==> final(self).spec_stats() == after_enqueued(old(self).spec_stats()),
            !pushed ==> final(self).spec_stats() == after_dropped(old(self).spec_stats()),
    {
        if pushed {
            self.stats.record_enqueued();
        } else {
            self.stats.record_dropped();
        }
    }

    /// Counts a job lost for good outside a handler: a record that was not
    /// due yet and that the store refused to take back.
    pub fn record_lost(&mut self)
        ensures
            final(self).spec_config() == old(self).spec_config(),
            final(self).spec_running() == old(self).spec_running(),
            final(self).spec_started() == old(self).spec_started(),
            final(self).spec_stats() == after_dropped(old(self).spec_stats()),
    {
        self.stats.record_dropped();
    }

    /// A worker's next step after a poll, under this state's shutdown signal.
    pub fn next_action(&self, polled: PollOutcome) -> (r: WorkerAction)
        ensures
            r == action_after_poll(!self.spec_running(), polled),
    {
        self.control.next_action(polled)
    }

    /// A snapshot of the counters.
    pub fn stats(&self) -> (r: QueueStats)
        ensures
            r == self.spec_stats(),
    {
        self.stats
    }
}

} // verus!
