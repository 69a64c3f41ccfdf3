//! Bounded exponential backoff, and the per-scan launch state machine that
//! follows it.
use vstd::prelude::*;
use vstd::arithmetic::power2::{lemma2_to64, lemma_pow2_unfold, pow2};
use crate::error::NessusError;

verus! {

/// How often and how patiently a launch is retried.
#[derive(Clone, Copy, Debug)]
pub struct RetryPolicy {
    /// Wait after the first failed attempt, in milliseconds.
    pub base_delay_ms: u64,
    /// No wait is longer than this, in milliseconds.
    pub max_delay_ms: u64,
    /// Attempts in all, the first one included.
    pub max_attempts: u32,
}

impl RetryPolicy {
    /// The wait after failed attempt number `attempt` (counted from 1):
    /// `min(base * 2^(attempt - 1), max)`.
    pub open spec fn delay_spec(self, attempt: nat) -> nat {
        let grown = (self.base_delay_ms * pow2((attempt - 1) as nat)) as nat;
        if grown <= self.max_delay_ms {
            grown
        } else {
            self.max_delay_ms as nat
        }
    }

    /// The policy for scan launches: 500 ms doubling up to 10 s, five
    /// attempts in all.
    pub open spec fn launch_default_spec() -> RetryPolicy {
        RetryPolicy { base_delay_ms: 500, max_delay_ms: 10_000, max_attempts: 5 }
    }

    /// The policy for scan launches: 500 ms doubling up to 10 s, five
    /// attempts in all.
    pub fn launch_default() -> (r: RetryPolicy)
        ensures
            r == RetryPolicy::launch_default_spec(),
            r.base_delay_ms == 500,
            r.max_delay_ms == 10_000,
            r.max_attempts == 5,
    {
        RetryPolicy { base_delay_ms: 500, max_delay_ms: 10_000, max_attempts: 5 }
    }

    /// The wait after failed attempt number `attempt`, in milliseconds.
    pub fn delay_after(&self, attempt: u32) -> (r: u64)
        requires
            attempt >= 1,
        ensures
            r == self.delay_spec(attempt as nat),
    {
        let base = self.base_delay_ms;
        let max = self.max_delay_ms;
        let mut d: u64 = base;
        let mut k: u32 = 1;
        proof {
            lemma2_to64();
            assert(base * pow2(0) == base);
        }
        while k < attempt
            invariant
                1 <= k <= attempt,
                base == self.base_delay_ms,
                max == self.max_delay_ms,
                d < max ==> d == base * pow2((k - 1) as nat),
                d >= max ==> base * pow2((k - 1) as nat) >= max,
            decreases attempt - k,
        {
            let ghost p = pow2((k - 1) as nat);
            proof {
                lemma_pow2_unfold(k as nat);
                assert(base * pow2(k as nat) == 2 * (base * p)) by (nonlinear_arith)
                    requires
                        pow2(k as nat) == 2 * p,
                ;
            }
            if d >= max {
            } else if d > max - d {
                d = max;
            } else {
                d = d + d;
            }
            k += 1;
        }
        if d < max {
            d
        } else {
            max
        }
    }
}

/// Where one scan's launch stands; the count is the attempt in flight or the
/// attempts made.
#[derive(Clone, Copy, Debug, PartialEq, Eq, Structural)]
pub enum TaskState {
    Pending,
    Attempting(u32),
    Succeeded(u32),
    Exhausted(u32),
}

/// The state after the attempt in flight succeeded (`ok`) or failed, with at
/// most `max` attempts.
pub open spec fn step(state: TaskState, ok: bool, max: u32) -> TaskState {
    match state {
        TaskState::Attempting(k) => if ok {
            TaskState::Succeeded(k)
        } else if k < max {
            TaskState::Attempting((k + 1) as u32)
        } else {
            TaskState::Exhausted(k)
        },
        _ => state,
    }
}

/// The state reached from `state` when the attempts made from there on
/// succeed or fail as `oks` says, stopping at a terminal state.
pub open spec fn run(state: TaskState, oks: Seq<bool>, max: u32) -> TaskState
    decreases oks.len(),
{
    if state is Attempting && oks.len() > 0 {
        run(step(state, oks[0], max), oks.drop_first(), max)
    } else {
        state
    }
}

proof fn lemma_run_succeeds_from(max: u32, k: u32, oks: Seq<bool>, i: int)
    requires
        1 <= k,
        k + i <= max,
        0 <= i < oks.len(),
        oks[i],
        forall|j: int| 0 <= j < i ==> !oks[j],
    ensures
        run(TaskState::Attempting(k), oks, max) == TaskState::Succeeded((k + i) as u32),
    decreases i,
{
    reveal_with_fuel(run, 2);
    if i > 0 {
        let rest = oks.drop_first();
        assert forall|j: int| 0 <= j < i - 1 implies !rest[j] by {
            assert(rest[j] == oks[j + 1]);
        }
        lemma_run_succeeds_from(max, (k + 1) as u32, rest, i - 1);
    }
}

proof fn lemma_run_exhausts_from(max: u32, k: u32, oks: Seq<bool>)
    requires
        1 <= k <= max,
        oks.len() >= max - k + 1,
        forall|j: int| 0 <= j <= max - k ==> !oks[j],
    ensures
        run(TaskState::Attempting(k), oks, max) == TaskState::Exhausted(max),
    decreases max - k,
{
    reveal_with_fuel(run, 2);
    if k < max {
        let rest = oks.drop_first();
        assert forall|j: int| 0 <= j <= max - (k + 1) implies !rest[j] by {
            assert(rest[j] == oks[j + 1]);
        }
        lemma_run_succeeds_or_exhausts_step(max, k, oks);
        lemma_run_exhausts_from(max, (k + 1) as u32, rest);
    }
}

proof fn lemma_run_succeeds_or_exhausts_step(max: u32, k: u32, oks: Seq<bool>)
    requires
        1 <= k < max,
        oks.len() > 0,
        !oks[0],
    ensures
        run(TaskState::Attempting(k), oks, max) == run(
            TaskState::Attempting((k + 1) as u32),
            oks.drop_first(),
            max,
        ),
{
}

/// A launch whose first `i` attempts fail and whose next one succeeds, with
/// attempts to spare, ends in success after exactly `i + 1` attempts.
pub proof fn lemma_retry_succeeds_after_failures(policy: RetryPolicy, oks: Seq<bool>, i: int)
    requires
        0 <= i < policy.max_attempts,
        i < oks.len(),
        oks[i],
        forall|j: int| 0 <= j < i ==> !oks[j],
    ensures
        run(TaskState::Attempting(1), oks, policy.max_attempts) == TaskState::Succeeded(
            (i + 1) as u32,
        ),
{
    lemma_run_succeeds_from(policy.max_attempts, 1, oks, i);
}

/// A launch that fails every time ends exhausted after exactly
/// `max_attempts` attempts, and is attempted no more.
pub proof fn lemma_retry_exhausts(policy: RetryPolicy, oks: Seq<bool>)
    requires
        policy.max_attempts >= 1,
        forall|j: int| 0 <= j < oks.len() ==> !oks[j],
        oks.len() >= policy.max_attempts,
    ensures
        run(TaskState::Attempting(1), oks, policy.max_attempts) == TaskState::Exhausted(
            policy.max_attempts,
        ),
        step(TaskState::Exhausted(policy.max_attempts), false, policy.max_attempts)
            == TaskState::Exhausted(policy.max_attempts),
{
    lemma_run_exhausts_from(policy.max_attempts, 1, oks);
}

} // verus!
