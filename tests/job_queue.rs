use apex::error::JobQueueError;
use apex::job::{Job, JobResult, DEFAULT_MAX_ATTEMPTS};
use apex::memory::{InMemoryJobQueue, InMemoryJobQueueConfig};
use apex::policy::{decide_retry, RetryDecision, DEFAULT_BASE_DELAY_MS};
use apex::stats::QueueStats;
use apex::worker::{after_poll, PollOutcome, WorkerAction, WorkerControl, BACKEND_ERROR_BACKOFF_MS};

const NOW: i64 = 1_000_000;

fn payload(text: &str) -> serde_json::Value {
    serde_json::Value::String(text.to_string())
}

fn job(kind: &str) -> Job {
    Job::new(kind.to_string(), payload("data"))
}

fn queue(max_size: usize) -> InMemoryJobQueue {
    InMemoryJobQueue::new(InMemoryJobQueueConfig { max_size, workers: 4 })
}

/// Runs one job through the queue until it reaches a terminal state, with a
/// handler that always answers `answer`. Returns the handler invocations and
/// the attempt counter the job ended with.
fn run_to_end(q: &mut InMemoryJobQueue, answer: &JobResult) -> (u32, u32) {
    let mut calls = 0;
    loop {
        let j = q.dequeue(NOW).expect("a job waits");
        calls += 1;
        match q.finish(&j, answer.clone()) {
            RetryDecision::Requeue { .. } => q.requeue(j).unwrap(),
            _ => return (calls, j.attempts),
        }
    }
}

#[test]
fn new_job_has_defaults() {
    let j = job("email");
    assert_eq!(j.job_type, "email");
    assert_eq!(j.payload, payload("data"));
    assert_eq!(j.attempts, 0);
    assert_eq!(j.max_attempts, DEFAULT_MAX_ATTEMPTS);
    assert_eq!(j.max_attempts, 3);
    assert!(j.scheduled_at.is_none());
    assert_eq!(j.id.len(), 36);
    assert!(j.created_at > 0);
}

#[test]
fn new_jobs_get_distinct_ids() {
    let a = job("a");
    let b = job("b");
    assert_ne!(a.id, b.id);
}

#[test]
fn with_max_attempts_sets_budget() {
    let j = job("email").with_max_attempts(7);
    assert_eq!(j.max_attempts, 7);
    assert_eq!(j.attempts, 0);
}

#[test]
fn delayed_from_adds_delay() {
    let j = job("email").delayed_from(1_000, 250);
    assert_eq!(j.scheduled_at, Some(1_250));
    let k = job("email").delayed_from(i64::MAX - 1, 10);
    assert_eq!(k.scheduled_at, Some(i64::MAX));
}

#[test]
fn delayed_is_after_now() {
    let j = job("email");
    let created = j.created_at;
    let d = j.delayed(60_000);
    assert!(d.scheduled_at.unwrap() >= created + 60_000);
}

#[test]
fn start_attempt_counts_one() {
    let j = job("email").start_attempt();
    assert_eq!(j.attempts, 1);
    let mut k = job("email");
    k.attempts = u32::MAX;
    assert_eq!(k.start_attempt().attempts, u32::MAX);
}

#[test]
fn policy_success_completes() {
    assert!(matches!(decide_retry(1, 3, JobResult::Success, 100), RetryDecision::Complete));
}

#[test]
fn policy_failed_is_terminal_with_budget_left() {
    match decide_retry(1, 3, JobResult::Failed("bad input".to_string()), 100) {
        RetryDecision::Fail { reason } => assert_eq!(reason, "bad input"),
        other => panic!("unexpected {:?}", other),
    }
}

#[test]
fn policy_retry_backs_off_linearly() {
    match decide_retry(2, 3, JobResult::Retry("busy".to_string()), DEFAULT_BASE_DELAY_MS) {
        RetryDecision::Requeue { delay_ms } => assert_eq!(delay_ms, 200),
        other => panic!("unexpected {:?}", other),
    }
    match decide_retry(u32::MAX - 1, u32::MAX, JobResult::Retry("x".to_string()), u32::MAX) {
        RetryDecision::Requeue { delay_ms } => {
            assert_eq!(delay_ms, (u32::MAX as u64) * ((u32::MAX - 1) as u64))
        }
        other => panic!("unexpected {:?}", other),
    }
}

#[test]
fn policy_retry_exhausted_keeps_reason() {
    match decide_retry(3, 3, JobResult::Retry("smtp down".to_string()), 100) {
        RetryDecision::Fail { reason } => assert_eq!(reason, "smtp down"),
        other => panic!("unexpected {:?}", other),
    }
}

#[test]
fn enqueue_then_dequeue_moves_counters() {
    let mut q = queue(10);
    q.enqueue(job("a")).unwrap();
    assert_eq!(q.stats(), QueueStats { pending: 1, processing: 0, completed: 0, failed: 0 });
    let j = q.dequeue(NOW).unwrap();
    assert_eq!(j.attempts, 1);
    assert_eq!(q.stats(), QueueStats { pending: 0, processing: 1, completed: 0, failed: 0 });
    assert!(q.dequeue(NOW).is_none());
}

#[test]
fn dequeue_is_first_in_first_out() {
    let mut q = queue(0);
    q.enqueue(job("first")).unwrap();
    q.enqueue(job("second")).unwrap();
    assert_eq!(q.dequeue(NOW).unwrap().job_type, "first");
    assert_eq!(q.dequeue(NOW).unwrap().job_type, "second");
}

#[test]
fn full_queue_refuses_without_counting() {
    let mut q = queue(2);
    q.enqueue(job("a")).unwrap();
    q.enqueue(job("b")).unwrap();
    let before = q.stats();
    assert_eq!(before.pending, 2);
    let r = q.enqueue(job("c"));
    assert!(matches!(r, Err(JobQueueError::QueueFull)));
    assert_eq!(q.stats(), before);
}

#[test]
fn zero_bound_is_unbounded() {
    let mut q = queue(0);
    for _ in 0..500 {
        q.enqueue(job("a")).unwrap();
    }
    assert_eq!(q.stats().pending, 500);
}

#[test]
fn success_round_trip_adds_one_completed() {
    let mut q = queue(10);
    q.enqueue(job("waiting")).unwrap();
    let base = q.stats();
    q.enqueue(job("a")).unwrap();
    let j = q.dequeue(NOW).unwrap();
    let d = q.finish(&j, JobResult::Success);
    assert!(matches!(d, RetryDecision::Complete));
    let after = q.stats();
    assert_eq!(after.completed, base.completed + 1);
    assert_eq!(after.pending, base.pending);
    assert_eq!(after.processing, base.processing);
    assert_eq!(after.failed, base.failed);
}

#[test]
fn always_retry_fails_after_budget() {
    let mut q = queue(10);
    q.enqueue(job("email").with_max_attempts(5)).unwrap();
    let (calls, attempts) = run_to_end(&mut q, &JobResult::Retry("later".to_string()));
    assert_eq!(calls, 5);
    assert_eq!(attempts, 5);
    let s = q.stats();
    assert_eq!(s.failed, 1);
    assert_eq!(s.completed, 0);
    assert_eq!(s.pending, 0);
    assert_eq!(s.processing, 0);
}

#[test]
fn handler_runs_at_most_budget_times() {
    for k in 1..6u32 {
        for answer in [
            JobResult::Success,
            JobResult::Retry("r".to_string()),
            JobResult::Failed("f".to_string()),
        ] {
            let mut q = queue(10);
            q.enqueue(job("x").with_max_attempts(k)).unwrap();
            let (calls, attempts) = run_to_end(&mut q, &answer);
            assert!(calls <= k);
            assert!(attempts <= k);
        }
    }
}

#[test]
fn email_scenario_always_retry() {
    let mut q = queue(100);
    let mut fields = serde_json::Map::new();
    fields.insert("to".to_string(), payload("user@example.com"));
    let j = Job::new("email".to_string(), serde_json::Value::Object(fields)).with_max_attempts(3);
    q.enqueue(j).unwrap();
    let (calls, attempts) = run_to_end(&mut q, &JobResult::Retry("smtp down".to_string()));
    assert_eq!(calls, 3);
    assert_eq!(attempts, 3);
    assert_eq!(q.stats().failed, 1);
    assert_eq!(q.stats().completed, 0);
}

#[test]
fn failed_job_is_not_retried() {
    let mut q = queue(10);
    q.enqueue(job("x")).unwrap();
    let (calls, attempts) = run_to_end(&mut q, &JobResult::Failed("boom".to_string()));
    assert_eq!(calls, 1);
    assert_eq!(attempts, 1);
    assert_eq!(q.stats().failed, 1);
}

#[test]
fn thousand_jobs_four_workers_all_complete() {
    let mut q = queue(0);
    for i in 0..1000 {
        q.enqueue(job(&format!("job{}", i))).unwrap();
    }
    // Four workers take turns: each takes a job, then each reports on its own.
    loop {
        let mut taken = Vec::new();
        for _ in 0..4 {
            if let Some(j) = q.dequeue(NOW) {
                taken.push(j);
            }
        }
        if taken.is_empty() {
            break;
        }
        for j in &taken {
            assert!(matches!(q.finish(j, JobResult::Success), RetryDecision::Complete));
        }
    }
    let s = q.stats();
    assert_eq!(s.completed, 1000);
    assert_eq!(s.failed, 0);
    assert_eq!(s.pending, 0);
    assert_eq!(s.processing, 0);
}

#[test]
fn requeue_ignores_capacity_bound() {
    let mut q = queue(1);
    q.enqueue(job("a")).unwrap();
    let j = q.dequeue(NOW).unwrap();
    q.enqueue(job("b")).unwrap();
    assert!(matches!(q.finish(&j, JobResult::Retry("r".to_string())), RetryDecision::Requeue { delay_ms: 100 }));
    assert!(q.requeue(j).is_ok());
    assert_eq!(q.stats().pending, 2);
}

#[test]
fn idle_worker_stops_on_shutdown() {
    assert!(matches!(after_poll(true, PollOutcome::Empty), WorkerAction::Stop));
    assert!(matches!(after_poll(false, PollOutcome::Empty), WorkerAction::Poll));
}

#[test]
fn backend_error_pauses_worker() {
    match after_poll(false, PollOutcome::BackendError("down".to_string())) {
        WorkerAction::Backoff { ms } => assert_eq!(ms, BACKEND_ERROR_BACKOFF_MS),
        other => panic!("unexpected {:?}", other),
    }
    assert!(matches!(
        after_poll(true, PollOutcome::BackendError("down".to_string())),
        WorkerAction::Stop
    ));
}

#[test]
fn taken_job_is_processed_even_on_shutdown() {
    match after_poll(true, PollOutcome::Job(job("late"))) {
        WorkerAction::Process(j) => assert_eq!(j.job_type, "late"),
        other => panic!("unexpected {:?}", other),
    }
}

#[test]
fn queue_error_messages() {
    assert_eq!(JobQueueError::QueueFull.message(), "Queue is full");
    assert_eq!(JobQueueError::Backend("down".to_string()).message(), "Backend error: down");
    assert_eq!(
        JobQueueError::EnqueueError("bad".to_string()).message(),
        "Failed to enqueue job: bad"
    );
}

#[test]
fn in_memory_config_defaults() {
    let c = InMemoryJobQueueConfig::default();
    assert_eq!(c.max_size, 10000);
    assert_eq!(c.workers, 4);
    assert_eq!(queue(5).config().max_size, 5);
}

#[test]
fn delayed_job_waits_until_due() {
    let mut q = queue(10);
    q.enqueue(job("later").delayed_from(NOW, 500)).unwrap();
    q.enqueue(job("now")).unwrap();
    assert_eq!(q.dequeue(NOW).unwrap().job_type, "now");
    assert!(q.dequeue(NOW + 499).is_none());
    assert_eq!(q.stats().pending, 1);
    let j = q.dequeue(NOW + 500).unwrap();
    assert_eq!(j.job_type, "later");
    assert_eq!(j.attempts, 1);
}

#[test]
fn is_due_compares_schedule() {
    let j = job("x");
    assert!(j.is_due(i64::MIN));
    let d = job("x").delayed_from(100, 0);
    assert!(d.is_due(100));
    assert!(!d.is_due(99));
}

#[test]
fn workers_start_once() {
    let mut c = WorkerControl::new();
    assert!(!c.is_running());
    assert!(c.start());
    assert!(c.is_running());
    assert!(!c.start());
    assert!(c.is_running());
    c.stop();
    assert!(matches!(c.next_action(PollOutcome::Empty), WorkerAction::Stop));
    assert!(!c.start());
    assert!(!c.is_running());
}
