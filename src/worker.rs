use vstd::prelude::*;

use crate::job::Job;

verus! {

/// Workers a pool runs when its creator names no other number.
pub const DEFAULT_WORKERS: usize = 4;

/// Pause after the backend itself failed a poll, in milliseconds.
pub const BACKEND_ERROR_BACKOFF_MS: u64 = 1000;

/// What one bounded wait on the backend brought back.
#[derive(Debug, Clone)]
pub enum PollOutcome {
    /// A job, already counted as taken.
    Job(Job),
    /// The wait timed out with nothing to take.
    Empty,
    /// The backend itself failed (connectivity loss).
    BackendError(String),
}

/// The next step of one worker loop.
#[derive(Debug, Clone)]
pub enum WorkerAction {
    /// Hand this job to the handler.
    Process(Job),
    /// Wait on the backend again.
    Poll,
    /// Pause for `ms` milliseconds, then poll again.
    Backoff { ms: u64 },
    /// Leave the loop.
    Stop,
}

/// The step a worker takes after a poll, given whether shutdown has been
/// signalled. A job already taken is always handled, since shutdown stops
/// new dequeues only; otherwise shutdown ends the loop at this boundary.
pub open spec fn action_after_poll(shutdown: bool, polled: PollOutcome) -> WorkerAction {
    match polled {
        PollOutcome::Job(job) => WorkerAction::Process(job),
        PollOutcome::Empty => if shutdown {
            WorkerAction::Stop
        } else {
            WorkerAction::Poll
        },
        PollOutcome::BackendError(_) => if shutdown {
            WorkerAction::Stop
        } else {
            WorkerAction::Backoff { ms: BACKEND_ERROR_BACKOFF_MS }
        },
    }
}

/// Decides a worker's next step after a poll. An idle worker (its poll timed
/// out empty) that sees the shutdown signal stops right there, so every idle
/// worker leaves within one poll timeout of the signal.
pub fn after_poll(shutdown: bool, polled: PollOutcome) -> (r: WorkerAction)
    ensures
        r == action_after_poll(shutdown, polled),
        shutdown && polled is Empty ==> r is Stop,
        !shutdown ==> !(r is Stop),
{
    match polled {
        PollOutcome::Job(job) => WorkerAction::Process(job),
        PollOutcome::Empty => {
            if shutdown {
                WorkerAction::Stop
            } else {
                WorkerAction::Poll
            }
        },
        PollOutcome::BackendError(_) => {
            if shutdown {
                WorkerAction::Stop
            } else {
                WorkerAction::Backoff { ms: BACKEND_ERROR_BACKOFF_MS }
            }
        },
    }
}

/// The start-once switch and the shutdown signal of one queue's workers.
#[derive(Debug, Clone, Copy, PartialEq, Eq, Structural)]
pub struct WorkerControl {
    started: bool,
    running: bool,
}

impl WorkerControl {
    /// Whether workers have ever been started.
    pub closed spec fn spec_started(&self) -> bool {
        self.started
    }

    /// Whether workers are to keep running.
    pub closed spec fn spec_running(&self) -> bool {
        self.running
    }

    /// Workers neither started nor running.
    pub fn new() -> (r: WorkerControl)
        ensures
            !r.spec_started(),
            !r.spec_running(),
    {
        WorkerControl { started: false, running: false }
    }

    /// Starts the workers if they never were; returns whether this call
    /// started them. Later calls change nothing, so workers start at most
    /// once per queue.
    pub fn start(&mut self) -> (r: bool)
        ensures
            r == !old(self).spec_started(),
            final(self).spec_started(),
            r ==> final(self).spec_running(),
            !r ==> final(self).spec_running() == old(self).spec_running(),
    {
        if self.started {
            false
        } else {
            self.started = true;
            self.running = true;
            true
        }
    }

    /// Signals shutdown: workers stop at their next poll boundary.
    pub fn stop(&mut self)
        ensures
            final(self).spec_started() == old(self).spec_started(),
            !final(self).spec_running(),
    {
        self.running = false;
    }

    /// Whether workers are to keep running.
    pub fn is_running(&self) -> (r: bool)
        ensures
            r == self.spec_running(),
    {
        self.running
    }

    /// A worker's next step after a poll, under this shutdown signal.
    pub fn next_action(&self, polled: PollOutcome) -> (r: WorkerAction)
        ensures
            r == action_after_poll(!self.spec_running(), polled),
    {
        after_poll(!self.running, polled)
    }
}

} // verus!
