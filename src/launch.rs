//! One scan's launch: the verdict on a reply, and the retrying task that
//! drives attempts until success or exhaustion.
use vstd::prelude::*;
use crate::error::NessusError;
use crate::retry::{step, RetryPolicy, TaskState};

verus! {

/// Whether an HTTP status reports success (2xx).
pub open spec fn is_success_status(status: u16) -> bool {
    200 <= status < 300
}

/// The verdict on one launch reply: success on a 2xx status, otherwise a
/// launch error carrying the scan id and the status.
pub fn launch_status_result(scan_id: u32, status: u16) -> (r: Result<(), NessusError>)
    ensures
        is_success_status(status) ==> r is Ok,
        !is_success_status(status) ==> r == Err::<(), NessusError>(
            NessusError::Launch { scan_id, status },
        ),
{
    if 200 <= status && status < 300 {
        Ok(())
    } else {
        Err(NessusError::Launch { scan_id, status })
    }
}

/// The terminal result of one scan's launch.
#[derive(Debug)]
pub enum LaunchOutcome {
    Launched { scan_id: u32, attempts: u32 },
    Exhausted { scan_id: u32, attempts: u32, last_error: NessusError },
}

/// What the runner of a scan task does next.
#[derive(Debug)]
pub enum RetryStep {
    /// Wait this long, then make the next attempt.
    Wait { delay_ms: u64 },
    /// The task is over.
    Done(LaunchOutcome),
}

/// The launch of one scan under a retry policy.
#[derive(Debug)]
pub struct ScanTask {
    pub scan_id: u32,
    pub policy: RetryPolicy,
    pub state: TaskState,
}

impl ScanTask {
    /// The policy allows an attempt and the count in the state is in range.
    pub open spec fn wf(&self) -> bool {
        &&& self.policy.max_attempts >= 1
        &&& match self.state {
            TaskState::Pending => true,
            TaskState::Attempting(k) => 1 <= k <= self.policy.max_attempts,
            TaskState::Succeeded(k) => 1 <= k <= self.policy.max_attempts,
            TaskState::Exhausted(k) => k == self.policy.max_attempts,
        }
    }

    /// A task that has not attempted anything yet.
    pub fn new(scan_id: u32, policy: RetryPolicy) -> (r: ScanTask)
        requires
            policy.max_attempts >= 1,
        ensures
            r.wf(),
            r.scan_id == scan_id,
            r.policy == policy,
            r.state == TaskState::Pending,
    {
        ScanTask { scan_id, policy, state: TaskState::Pending }
    }

    /// Whether the task has reached success or exhaustion.
    pub fn is_finished(&self) -> (r: bool)
        ensures
            r == (self.state is Succeeded || self.state is Exhausted),
    {
        match self.state {
            TaskState::Succeeded(_) | TaskState::Exhausted(_) => true,
            _ => false,
        }
    }

    /// Starts the first attempt.
    pub fn begin(&mut self)
        requires
            old(self).wf(),
            old(self).state == TaskState::Pending,
        ensures
            final(self).wf(),
            final(self).scan_id == old(self).scan_id,
            final(self).policy == old(self).policy,
            final(self).state == TaskState::Attempting(1),
    {
        self.state = TaskState::Attempting(1);
    }

    /// Records the result of the attempt in flight and says what comes next:
    /// a wait before the next attempt, or the outcome.
    pub fn record(&mut self, result: Result<(), NessusError>) -> (r: RetryStep)
        requires
            old(self).wf(),
            old(self).state is Attempting,
        ensures
            final(self).wf(),
            final(self).scan_id == old(self).scan_id,
            final(self).policy == old(self).policy,
            final(self).state == step(old(self).state, result is Ok, old(self).policy.max_attempts),
            match final(self).state {
                TaskState::Attempting(k) => r matches RetryStep::Wait { delay_ms } && delay_ms
                    == old(self).policy.delay_spec((k - 1) as nat),
                TaskState::Succeeded(k) => r matches RetryStep::Done(
                    LaunchOutcome::Launched { scan_id, attempts },
                ) && scan_id == old(self).scan_id && attempts == k,
                TaskState::Exhausted(k) => r matches RetryStep::Done(
                    LaunchOutcome::Exhausted { scan_id, attempts, last_error },
                ) && scan_id == old(self).scan_id && attempts == k && result == Err::<
                    (),
                    NessusError,
                >(last_error),
                TaskState::Pending => false,
            },
    {
        let k = match self.state {
            TaskState::Attempting(k) => k,
            _ => 0,
        };
        match result {
            Ok(()) => {
                self.state = TaskState::Succeeded(k);
                RetryStep::Done(LaunchOutcome::Launched { scan_id: self.scan_id, attempts: k })
            },
            Err(e) => {
                if k < self.policy.max_attempts {
                    self.state = TaskState::Attempting(k + 1);
                    RetryStep::Wait { delay_ms: self.policy.delay_after(k) }
                } else {
                    self.state = TaskState::Exhausted(k);
                    RetryStep::Done(
                        LaunchOutcome::Exhausted { scan_id: self.scan_id, attempts: k, last_error: e },
                    )
                }
            },
        }
    }
}

} // verus!
