use vstd::prelude::*;

verus! {

/// serde_json's `Value`: a job's payload is carried through the queue unread.
#[verifier::external_type_specification]
#[verifier::external_body]
pub struct ExValue(serde_json::Value);

/// serde_json's `Clone` for `Value`, reached when a job is copied.
pub assume_specification[ <serde_json::Value as core::clone::Clone>::clone ](
    v: &serde_json::Value,
) -> serde_json::Value;

/// Attempts a job gets when its creator names no other budget.
pub const DEFAULT_MAX_ATTEMPTS: u32 = 3;

/// A unit of work held by a queue backend.
///
/// Times are milliseconds since the Unix epoch.
#[derive(Debug, Clone)]
pub struct Job {
    /// Unique identifier, assigned at creation.
    pub id: String,
    /// Discriminator the handler routes on; the queue never reads it.
    pub job_type: String,
    /// Opaque payload; the queue never reads it.
    pub payload: serde_json::Value,
    /// Handler invocations so far, counted just before each one.
    pub attempts: u32,
    /// Budget of handler invocations.
    pub max_attempts: u32,
    /// When the job was created.
    pub created_at: i64,
    /// Earliest dispatch time of a delayed job.
    pub scheduled_at: Option<i64>,
}

/// What one handler invocation reports.
#[derive(Debug, Clone)]
pub enum JobResult {
    /// The job is done.
    Success,
    /// The job failed and may be tried again.
    Retry(String),
    /// The job failed for good.
    Failed(String),
}

/// Relies on `uuid::Uuid::new_v4` and its `Display`: a fresh random
/// identifier, written in the 36-character hyphenated form.
#[verifier::external_body]
fn new_job_id() -> (r: String)
    ensures
        r@.len() == 36,
{
    uuid::Uuid::new_v4().to_string()
}

/// Relies on `chrono::Utc::now` and `DateTime::timestamp_millis`: the
/// current time, which is never before the Unix epoch.
#[verifier::external_body]
fn now_millis() -> (r: i64)
    ensures
        r >= 0,
{
    chrono::Utc::now().timestamp_millis()
}

/// `t + delay`, held within the range of `i64`.
pub open spec fn time_after(t: i64, delay: i64) -> i64 {
    if t + delay > i64::MAX {
        i64::MAX
    } else if t + delay < i64::MIN {
        i64::MIN
    } else {
        (t + delay) as i64
    }
}

/// The attempt counter after one more handler invocation (it stops at `u32::MAX`).
pub open spec fn next_attempt(attempts: u32) -> u32 {
    if attempts < u32::MAX {
        (attempts + 1) as u32
    } else {
        attempts
    }
}

/// Whether a job may be handed to a worker at time `now_ms`: it names no
/// earliest dispatch time, or that time has come.
pub open spec fn job_is_due(job: Job, now_ms: i64) -> bool {
    match job.scheduled_at {
        None => true,
        Some(t) => t <= now_ms,
    }
}

impl Job {
    /// Whether the job may be handed to a worker at time `now_ms`.
    pub fn is_due(&self, now_ms: i64) -> (r: bool)
        ensures
            r == job_is_due(*self, now_ms),
    {
        match self.scheduled_at {
            None => true,
            Some(t) => t <= now_ms,
        }
    }

    /// A fresh job: new identifier, created now, no attempts yet, the
    /// default budget, eligible at once.
    pub fn new(job_type: String, payload: serde_json::Value) -> (r: Job)
        ensures
            r.id@.len() == 36,
            r.job_type == job_type,
            r.payload == payload,
            r.attempts == 0,
            r.max_attempts == DEFAULT_MAX_ATTEMPTS,
            r.created_at >= 0,
            r.scheduled_at is None,
    {
        let id = new_job_id();
        let created_at = now_millis();
        Job {
            id,
            job_type,
            payload,
            attempts: 0,
            max_attempts: DEFAULT_MAX_ATTEMPTS,
            created_at,
            scheduled_at: None,
        }
    }

    /// The same job with another budget of attempts.
    pub fn with_max_attempts(self, max: u32) -> (r: Job)
        ensures
            r == (Job { max_attempts: max, ..self }),
    {
        let mut job = self;
        job.max_attempts = max;
        job
    }

    /// The same job, made eligible no earlier than `delay_ms` after `now_ms`.
    pub fn delayed_from(self, now_ms: i64, delay_ms: i64) -> (r: Job)
        ensures
            r == (Job { scheduled_at: Some(time_after(now_ms, delay_ms)), ..self }),
    {
        let at = match now_ms.checked_add(delay_ms) {
            Some(t) => t,
            None => if delay_ms > 0 {
                i64::MAX
            } else {
                i64::MIN
            },
        };
        let mut job = self;
        job.scheduled_at = Some(at);
        job
    }

    /// The same job, made eligible no earlier than `delay_ms` from now.
    pub fn delayed(self, delay_ms: i64) -> (r: Job)
        ensures
            exists|now: i64|
                now >= 0 && r == (Job { scheduled_at: Some(time_after(now, delay_ms)), ..self }),
    {
        let now = now_millis();
        self.delayed_from(now, delay_ms)
    }

    /// The job as a worker hands it to the handler: one more attempt counted.
    pub fn start_attempt(self) -> (r: Job)
        ensures
            r == (Job { attempts: next_attempt(self.attempts), ..self }),
    {
        let mut job = self;
        job.attempts = job.attempts.saturating_add(1);
        job
    }
}

} // verus!
