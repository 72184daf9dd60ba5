//! The polling engine: turns a job that is still running into its terminal
//! result under a budget of status checks.
//!
//! The engine only decides. The caller fetches the job, hands the result to
//! [`JobPoll::observe`], and either sleeps and fetches again or returns what
//! the engine concluded.
use vstd::prelude::*;

use crate::error::BankrError;
use crate::types::{JobResponse, JobStatus};

verus! {

/// Default delay between two status checks, in milliseconds.
pub const DEFAULT_POLL_INTERVAL_MS: u64 = 2000;

/// Default number of status checks.
pub const DEFAULT_MAX_POLL_ATTEMPTS: u32 = 60;

/// The budget of one wait: the delay between checks and how many checks.
#[derive(Clone, Copy, Debug, PartialEq, Eq, Structural)]
pub struct PollConfig {
    /// Delay between two status checks, in milliseconds.
    pub interval_ms: u64,
    /// Ceiling on the number of status checks.
    pub max_attempts: u32,
}

impl Default for PollConfig {
    /// Two seconds between checks, at most sixty checks.
    fn default() -> (r: Self)
        ensures
            r.interval_ms == DEFAULT_POLL_INTERVAL_MS,
            r.max_attempts == DEFAULT_MAX_POLL_ATTEMPTS,
    {
        PollConfig { interval_ms: DEFAULT_POLL_INTERVAL_MS, max_attempts: DEFAULT_MAX_POLL_ATTEMPTS }
    }
}

/// What one status check concludes.
#[derive(Clone, Copy, Debug, PartialEq, Eq, Structural)]
pub enum PollDecision {
    /// Still running and budget left: sleep, then check again.
    Retry,
    /// Completed: return the job.
    Succeed,
    /// Failed: end with a job failure.
    Fail,
    /// Cancelled: end with a cancellation.
    Cancel,
    /// Still running at the last allowed check: end with a timeout.
    GiveUp,
}

/// The decision at check number `attempt` (counted from 1) of at most
/// `max_attempts`, for the status that this check fetched.
pub open spec fn decision_for(attempt: nat, max_attempts: nat, status: JobStatus) -> PollDecision {
    match status {
        JobStatus::Completed => PollDecision::Succeed,
        JobStatus::Failed => PollDecision::Fail,
        JobStatus::Cancelled => PollDecision::Cancel,
        JobStatus::Pending | JobStatus::Processing => {
            if attempt < max_attempts {
                PollDecision::Retry
            } else {
                PollDecision::GiveUp
            }
        },
    }
}

/// Decides what check number `attempt` of at most `max_attempts` does with
/// the status it fetched.
pub fn decide(attempt: u32, max_attempts: u32, status: JobStatus) -> (d: PollDecision)
    ensures
        d == decision_for(attempt as nat, max_attempts as nat, status),
{
    match status {
        JobStatus::Completed => PollDecision::Succeed,
        JobStatus::Failed => PollDecision::Fail,
        JobStatus::Cancelled => PollDecision::Cancel,
        JobStatus::Pending | JobStatus::Processing => {
            if attempt < max_attempts {
                PollDecision::Retry
            } else {
                PollDecision::GiveUp
            }
        },
    }
}

/// The message of a job failure: the job's error text, or `"unknown error"`.
pub open spec fn failure_text(error: Option<String>) -> Seq<char> {
    match error {
        Some(e) => e@,
        None => "unknown error"@,
    }
}

fn failure_message(error: Option<String>) -> (m: String)
    ensures
        m@ == failure_text(error),
{
    match error {
        Some(e) => e,
        None => String::from_str("unknown error"),
    }
}

/// What the caller does after a status check.
#[derive(Debug)]
pub enum PollStep {
    /// Sleep this many milliseconds, then fetch the job again.
    Sleep(u64),
    /// Stop with this result.
    Finished(Result<JobResponse, BankrError>),
}

/// The abstract state of a wait.
pub struct PollState {
    /// The budget of the wait.
    pub config: PollConfig,
    /// Statuses fetched so far, in order.
    pub observed: Seq<JobStatus>,
    /// Whether the wait has concluded.
    pub done: bool,
}

/// One wait for a job's terminal status.
pub struct JobPoll {
    config: PollConfig,
    attempts: u32,
    done: bool,
    observed: Ghost<Seq<JobStatus>>,
}

impl View for JobPoll {
    type V = PollState;

    closed spec fn view(&self) -> PollState {
        PollState { config: self.config, observed: self.observed@, done: self.done }
    }
}

impl JobPoll {
    /// Internal consistency: while the wait runs, one status per check made,
    /// every one of which decided to retry.
    pub closed spec fn wf(&self) -> bool {
        &&& self.config.max_attempts >= 1
        &&& !self.done ==> {
            &&& self.observed@.len() == self.attempts
            &&& self.attempts < self.config.max_attempts
            &&& retried_throughout(self.config.max_attempts as nat, self.observed@)
        }
    }

    /// A wait that may still check the job.
    pub open spec fn in_progress(&self) -> bool {
        self.wf() && !self@.done
    }

    /// Starts a wait with budget `config`; at least one check must be allowed.
    pub fn new(config: PollConfig) -> (p: Self)
        requires
            config.max_attempts >= 1,
        ensures
            p.in_progress(),
            p@.config == config,
            p@.observed == Seq::<JobStatus>::empty(),
    {
        JobPoll { config, attempts: 0, done: false, observed: Ghost(Seq::empty()) }
    }

    /// Takes the result of one status check and says what to do next.
    ///
    /// A transport failure ends the wait with that failure. Otherwise the
    /// fetched status is decided once, as check number `n` (the count of
    /// statuses observed, this one included): Completed returns the job,
    /// Failed and Cancelled end the wait at once whatever budget is left, and
    /// a running job sleeps the configured interval unless this was the last
    /// allowed check, which ends in a timeout without sleeping.
    pub fn observe(&mut self, fetched: Result<JobResponse, BankrError>) -> (step: PollStep)
        requires
            old(self).in_progress(),
        ensures
            final(self).wf(),
            final(self)@.config == old(self)@.config,
            match fetched {
                Err(e) => {
                    &&& step == PollStep::Finished(Err(e))
                    &&& final(self)@.done
                },
                Ok(job) => {
                    let max = old(self)@.config.max_attempts;
                    let seen = final(self)@.observed;
                    let d = decision_for(seen.len(), max as nat, job.status);
                    &&& seen == old(self)@.observed.push(job.status)
                    &&& final(self)@.done == (d != PollDecision::Retry)
                    &&& d == PollDecision::Retry ==> step == PollStep::Sleep(
                        old(self)@.config.interval_ms,
                    )
                    &&& d == PollDecision::Succeed ==> step == PollStep::Finished(Ok(job))
                    &&& d == PollDecision::Fail ==> (step matches PollStep::Finished(
                        Err(BankrError::JobFailed { message }),
                    ) && message@ == failure_text(job.error))
                    &&& d == PollDecision::Cancel ==> step == PollStep::Finished(
                        Err(BankrError::JobCancelled),
                    )
                    &&& d == PollDecision::GiveUp ==> step == PollStep::Finished(
                        Err(BankrError::PollTimeout { attempts: max }),
                    )
                    &&& final(self)@.done ==> poll_run(max as nat, seen) == (PollRun {
                        calls: seen.len(),
                        sleeps: (seen.len() - 1) as nat,
                        end: Some(d),
                    })
                },
            },
    {
        let attempt = self.attempts + 1;
        self.attempts = attempt;
        match fetched {
            Err(e) => {
                self.done = true;
                PollStep::Finished(Err(e))
            },
            Ok(job) => {
                let status = job.status;
                let ghost before = self.observed@;
                self.observed = Ghost(self.observed@.push(status));
                let max = self.config.max_attempts;
                let d = decide(attempt, max, status);
                proof {
                    let seen = self.observed@;
                    assert(seen.len() == attempt);
                    assert forall|j: int| 0 <= j < seen.len() - 1 implies #[trigger] decision_for(
                        (j + 1) as nat,
                        max as nat,
                        seen[j],
                    ) == PollDecision::Retry by {
                        assert(seen[j] == before[j]);
                    }
                    if d != PollDecision::Retry {
                        lemma_first_stop(max as nat, seen, seen.len());
                    }
                }
                match d {
                    PollDecision::Retry => PollStep::Sleep(self.config.interval_ms),
                    PollDecision::Succeed => {
                        self.done = true;
                        PollStep::Finished(Ok(job))
                    },
                    PollDecision::Fail => {
                        self.done = true;
                        PollStep::Finished(
                            Err(BankrError::JobFailed { message: failure_message(job.error) }),
                        )
                    },
                    PollDecision::Cancel => {
                        self.done = true;
                        PollStep::Finished(Err(BankrError::JobCancelled))
                    },
                    PollDecision::GiveUp => {
                        self.done = true;
                        PollStep::Finished(Err(BankrError::PollTimeout { attempts: max }))
                    },
                }
            },
        }
    }
}

/// Every status in `statuses`, fetched by checks 1, 2, ... of at most
/// `max_attempts`, decided to retry.
pub open spec fn retried_throughout(max_attempts: nat, statuses: Seq<JobStatus>) -> bool {
    forall|j: int|
        0 <= j < statuses.len() ==> #[trigger] decision_for((j + 1) as nat, max_attempts, statuses[j])
            == PollDecision::Retry
}

/// The course of a whole wait: how many status checks and sleeps it made and
/// how it ended (`None` if the statuses ran out first).
pub struct PollRun {
    /// Status checks made.
    pub calls: nat,
    /// Sleeps between checks.
    pub sleeps: nat,
    /// The decision that ended the wait.
    pub end: Option<PollDecision>,
}

/// The course of a wait from check number `attempt` on, where `statuses[i]`
/// is what the `i`-th check from there fetches.
pub open spec fn run_from(attempt: nat, max_attempts: nat, statuses: Seq<JobStatus>) -> PollRun
    decreases statuses.len(),
{
    if statuses.len() == 0 {
        PollRun { calls: 0, sleeps: 0, end: None }
    } else {
        let d = decision_for(attempt, max_attempts, statuses[0]);
        if d == PollDecision::Retry {
            let rest = run_from(attempt + 1, max_attempts, statuses.drop_first());
            PollRun { calls: rest.calls + 1, sleeps: rest.sleeps + 1, end: rest.end }
        } else {
            PollRun { calls: 1, sleeps: 0, end: Some(d) }
        }
    }
}

/// The course of a whole wait with budget `max_attempts`, where `statuses[i]`
/// is the status that check number `i + 1` fetches.
pub open spec fn poll_run(max_attempts: nat, statuses: Seq<JobStatus>) -> PollRun {
    run_from(1, max_attempts, statuses)
}

proof fn lemma_retries(attempt: nat, max_attempts: nat, statuses: Seq<JobStatus>, k: nat)
    requires
        k <= statuses.len(),
        forall|j: int|
            0 <= j < k ==> #[trigger] decision_for((attempt + j) as nat, max_attempts, statuses[j])
                == PollDecision::Retry,
    ensures
        ({
            let rest = run_from(attempt + k, max_attempts, statuses.skip(k as int));
            run_from(attempt, max_attempts, statuses) == (PollRun {
                calls: rest.calls + k,
                sleeps: rest.sleeps + k,
                end: rest.end,
            })
        }),
    decreases k,
{
    if k == 0 {
        assert(statuses.skip(0) =~= statuses);
    } else {
        let rest = statuses.drop_first();
        assert(decision_for((attempt + 0) as nat, max_attempts, statuses[0]) == PollDecision::Retry);
        assert forall|j: int| 0 <= j < k - 1 implies #[trigger] decision_for(
            ((attempt + 1) + j) as nat,
            max_attempts,
            rest[j],
        ) == PollDecision::Retry by {
            assert(decision_for((attempt + (j + 1)) as nat, max_attempts, statuses[j + 1])
                == PollDecision::Retry);
        }
        lemma_retries(attempt + 1, max_attempts, rest, (k - 1) as nat);
        assert(rest.skip(k - 1) =~= statuses.skip(k as int));
    }
}

/// A wait whose checks before number `i` retried and whose check `i` did not
/// stops there, after `i` checks and `i - 1` sleeps, with that check's
/// decision; whatever the server would have answered afterwards.
proof fn lemma_first_stop(max_attempts: nat, statuses: Seq<JobStatus>, i: nat)
    requires
        1 <= i <= statuses.len(),
        forall|j: int|
            0 <= j < i - 1 ==> #[trigger] decision_for((j + 1) as nat, max_attempts, statuses[j])
                == PollDecision::Retry,
        decision_for(i, max_attempts, statuses[i - 1]) != PollDecision::Retry,
    ensures
        poll_run(max_attempts, statuses) == (PollRun {
            calls: i,
            sleeps: (i - 1) as nat,
            end: Some(decision_for(i, max_attempts, statuses[i - 1])),
        }),
{
    let k = (i - 1) as nat;
    assert forall|j: int| 0 <= j < k implies #[trigger] decision_for(
        (1 + j) as nat,
        max_attempts,
        statuses[j],
    ) == PollDecision::Retry by {
        assert(decision_for((j + 1) as nat, max_attempts, statuses[j]) == PollDecision::Retry);
    }
    lemma_retries(1, max_attempts, statuses, k);
    let tail = statuses.skip(k as int);
    assert(tail[0] == statuses[i - 1]);
}


proof fn lemma_running_retries(max_attempts: nat, statuses: Seq<JobStatus>, k: nat)
    requires
        k < max_attempts,
        k <= statuses.len(),
        forall|j: int| 0 <= j < k ==> !(#[trigger] statuses[j]).is_terminal(),
    ensures
        forall|j: int|
            0 <= j < k ==> #[trigger] decision_for((j + 1) as nat, max_attempts, statuses[j])
                == PollDecision::Retry,
{
    assert forall|j: int| 0 <= j < k implies #[trigger] decision_for(
        (j + 1) as nat,
        max_attempts,
        statuses[j],
    ) == PollDecision::Retry by {
        assert(!statuses[j].is_terminal());
    }
}

/// A job that is Completed at the first check is returned by that check:
/// one call, no sleep, whatever the budget.
pub proof fn law_completed_at_once(max_attempts: nat, statuses: Seq<JobStatus>)
    requires
        max_attempts >= 1,
        statuses.len() >= 1,
        statuses[0] == JobStatus::Completed,
    ensures
        poll_run(max_attempts, statuses) == (PollRun {
            calls: 1,
            sleeps: 0,
            end: Some(PollDecision::Succeed),
        }),
{
    lemma_first_stop(max_attempts, statuses, 1);
}

/// `k` running statuses, with `k` below the budget, followed by Completed:
/// exactly `k + 1` calls and `k` sleeps, ending with the completed job.
pub proof fn law_completed_after_running(max_attempts: nat, statuses: Seq<JobStatus>, k: nat)
    requires
        k < max_attempts,
        k < statuses.len(),
        forall|j: int| 0 <= j < k ==> !(#[trigger] statuses[j]).is_terminal(),
        statuses[k as int] == JobStatus::Completed,
    ensures
        poll_run(max_attempts, statuses) == (PollRun {
            calls: k + 1,
            sleeps: k,
            end: Some(PollDecision::Succeed),
        }),
{
    lemma_running_retries(max_attempts, statuses, k);
    lemma_first_stop(max_attempts, statuses, k + 1);
}

/// When every one of the `max_attempts` checks sees a running job, the wait
/// ends in a timeout after `max_attempts` calls, and sleeps after every check
/// but the last.
pub proof fn law_budget_exhausted(max_attempts: nat, statuses: Seq<JobStatus>)
    requires
        max_attempts >= 1,
        statuses.len() >= max_attempts,
        forall|j: int| 0 <= j < max_attempts ==> !(#[trigger] statuses[j]).is_terminal(),
    ensures
        poll_run(max_attempts, statuses) == (PollRun {
            calls: max_attempts,
            sleeps: (max_attempts - 1) as nat,
            end: Some(PollDecision::GiveUp),
        }),
{
    lemma_running_retries(max_attempts, statuses, (max_attempts - 1) as nat);
    assert(!statuses[max_attempts - 1].is_terminal());
    lemma_first_stop(max_attempts, statuses, max_attempts);
}

/// A Failed status at check `i` (within the budget, after running statuses)
/// ends the wait there with a job failure, whatever budget is left.
pub proof fn law_failed_stops(max_attempts: nat, statuses: Seq<JobStatus>, i: nat)
    requires
        1 <= i <= max_attempts,
        i <= statuses.len(),
        forall|j: int| 0 <= j < i - 1 ==> !(#[trigger] statuses[j]).is_terminal(),
        statuses[i - 1] == JobStatus::Failed,
    ensures
        poll_run(max_attempts, statuses) == (PollRun {
            calls: i,
            sleeps: (i - 1) as nat,
            end: Some(PollDecision::Fail),
        }),
{
    lemma_running_retries(max_attempts, statuses, (i - 1) as nat);
    lemma_first_stop(max_attempts, statuses, i);
}

/// A Cancelled status at check `i` (within the budget, after running
/// statuses) ends the wait there with a cancellation, whatever budget is left.
pub proof fn law_cancelled_stops(max_attempts: nat, statuses: Seq<JobStatus>, i: nat)
    requires
        1 <= i <= max_attempts,
        i <= statuses.len(),
        forall|j: int| 0 <= j < i - 1 ==> !(#[trigger] statuses[j]).is_terminal(),
        statuses[i - 1] == JobStatus::Cancelled,
    ensures
        poll_run(max_attempts, statuses) == (PollRun {
            calls: i,
            sleeps: (i - 1) as nat,
            end: Some(PollDecision::Cancel),
        }),
{
    lemma_running_retries(max_attempts, statuses, (i - 1) as nat);
    lemma_first_stop(max_attempts, statuses, i);
}

proof fn lemma_run_bounded(attempt: nat, max_attempts: nat, statuses: Seq<JobStatus>)
    requires
        1 <= attempt <= max_attempts,
    ensures
        run_from(attempt, max_attempts, statuses).calls <= max_attempts - attempt + 1,
        run_from(attempt, max_attempts, statuses).end is Some ==> run_from(
            attempt,
            max_attempts,
            statuses,
        ).sleeps + 1 == run_from(attempt, max_attempts, statuses).calls,
        run_from(attempt, max_attempts, statuses).end is None ==> run_from(
            attempt,
            max_attempts,
            statuses,
        ).sleeps == run_from(attempt, max_attempts, statuses).calls,
    decreases statuses.len(),
{
    if statuses.len() > 0 {
        let d = decision_for(attempt, max_attempts, statuses[0]);
        if d == PollDecision::Retry {
            lemma_run_bounded(attempt + 1, max_attempts, statuses.drop_first());
        }
    }
}

/// Whatever the server answers, a wait makes at most `max_attempts` checks,
/// and one that concludes has slept exactly once less than it checked: never
/// after its last check.
pub proof fn law_within_budget(max_attempts: nat, statuses: Seq<JobStatus>)
    requires
        max_attempts >= 1,
    ensures
        poll_run(max_attempts, statuses).calls <= max_attempts,
        poll_run(max_attempts, statuses).end is Some ==> poll_run(max_attempts, statuses).sleeps + 1
            == poll_run(max_attempts, statuses).calls,
{
    lemma_run_bounded(1, max_attempts, statuses);
}

} // verus!
