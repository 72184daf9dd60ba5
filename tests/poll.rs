use bankr_agent::error::{transport_err, BankrError};
use bankr_agent::poll::{decide, JobPoll, PollConfig, PollDecision, PollStep};
use bankr_agent::types::{JobResponse, JobStatus};

fn job(status: JobStatus) -> JobResponse {
    JobResponse {
        success: true,
        job_id: "job_42".to_owned(),
        thread_id: None,
        status,
        prompt: "hello".to_owned(),
        created_at: "2024-01-01T00:00:00Z".to_owned(),
        cancellable: None,
        status_updates: None,
        started_at: None,
        response: None,
        rich_data: None,
        completed_at: None,
        processing_time: None,
        error: None,
        cancelled_at: None,
    }
}

/// What a whole wait did against a server that answers with `answers` in turn.
struct Trace {
    calls: usize,
    sleeps: Vec<u64>,
    result: Result<JobResponse, BankrError>,
}

fn run(config: PollConfig, answers: Vec<Result<JobResponse, BankrError>>) -> Trace {
    let mut poll = JobPoll::new(config);
    let mut answers = answers.into_iter();
    let mut calls = 0;
    let mut sleeps = Vec::new();
    loop {
        calls += 1;
        let fetched = answers.next().expect("the wait asked for more checks than expected");
        match poll.observe(fetched) {
            PollStep::Sleep(ms) => sleeps.push(ms),
            PollStep::Finished(result) => return Trace { calls, sleeps, result },
        }
    }
}

fn statuses(list: &[JobStatus]) -> Vec<Result<JobResponse, BankrError>> {
    list.iter().map(|s| Ok(job(*s))).collect()
}

fn config(max_attempts: u32) -> PollConfig {
    PollConfig { interval_ms: 250, max_attempts }
}

#[test]
fn pending_processing_completed_in_three_checks() {
    let t = run(
        config(3),
        statuses(&[JobStatus::Pending, JobStatus::Processing, JobStatus::Completed]),
    );
    assert_eq!(t.calls, 3);
    assert_eq!(t.sleeps, vec![250, 250]);
    let done = t.result.expect("completed job");
    assert_eq!(done.status, JobStatus::Completed);
    assert_eq!(done.job_id, "job_42");
}

#[test]
fn two_pending_checks_time_out_after_one_sleep() {
    let t = run(config(2), statuses(&[JobStatus::Pending, JobStatus::Pending]));
    assert_eq!(t.calls, 2);
    assert_eq!(t.sleeps.len(), 1);
    assert!(matches!(t.result, Err(BankrError::PollTimeout { attempts: 2 })));
}

#[test]
fn completed_at_first_check_never_sleeps() {
    for max in [1, 2, 60] {
        let mut j = job(JobStatus::Completed);
        j.response = None;
        let t = run(config(max), vec![Ok(j)]);
        assert_eq!(t.calls, 1);
        assert!(t.sleeps.is_empty());
        let done = t.result.expect("completed job");
        assert_eq!(done.response, None);
    }
}

#[test]
fn completed_after_k_running_checks() {
    let mut answers = vec![JobStatus::Processing; 4];
    answers.push(JobStatus::Completed);
    let t = run(config(10), statuses(&answers));
    assert_eq!(t.calls, 5);
    assert_eq!(t.sleeps.len(), 4);
    assert!(t.result.is_ok());
}

#[test]
fn completed_at_last_allowed_check() {
    let t = run(config(3), statuses(&[JobStatus::Pending, JobStatus::Pending, JobStatus::Completed]));
    assert_eq!(t.calls, 3);
    assert_eq!(t.sleeps.len(), 2);
    assert!(t.result.is_ok());
}

#[test]
fn single_check_budget_times_out_without_sleeping() {
    let t = run(config(1), statuses(&[JobStatus::Processing]));
    assert_eq!(t.calls, 1);
    assert!(t.sleeps.is_empty());
    assert!(matches!(t.result, Err(BankrError::PollTimeout { attempts: 1 })));
}

#[test]
fn failed_carries_the_job_error() {
    let mut failed = job(JobStatus::Failed);
    failed.error = Some("insufficient funds".to_owned());
    let t = run(config(60), vec![Ok(job(JobStatus::Pending)), Ok(failed)]);
    assert_eq!(t.calls, 2);
    assert_eq!(t.sleeps.len(), 1);
    match t.result {
        Err(BankrError::JobFailed { message }) => assert_eq!(message, "insufficient funds"),
        other => panic!("unexpected result {other:?}"),
    }
}

#[test]
fn failed_without_text_is_unknown_error() {
    let t = run(config(5), statuses(&[JobStatus::Failed]));
    assert_eq!(t.calls, 1);
    match t.result {
        Err(BankrError::JobFailed { message }) => assert_eq!(message, "unknown error"),
        other => panic!("unexpected result {other:?}"),
    }
}

#[test]
fn cancelled_stops_at_once() {
    let t = run(
        config(60),
        statuses(&[JobStatus::Pending, JobStatus::Processing, JobStatus::Cancelled]),
    );
    assert_eq!(t.calls, 3);
    assert_eq!(t.sleeps.len(), 2);
    assert!(matches!(t.result, Err(BankrError::JobCancelled)));
}

#[test]
fn transport_failure_ends_the_wait() {
    let t = run(
        config(5),
        vec![Ok(job(JobStatus::Pending)), Err(transport_err("connection reset".to_owned()))],
    );
    assert_eq!(t.calls, 2);
    assert_eq!(t.sleeps.len(), 1);
    match t.result {
        Err(BankrError::Transport(m)) => assert_eq!(m, "connection reset"),
        other => panic!("unexpected result {other:?}"),
    }
}

#[test]
fn default_budget_is_two_seconds_sixty_checks() {
    let c = PollConfig::default();
    assert_eq!(c.interval_ms, 2000);
    assert_eq!(c.max_attempts, 60);
    let t = run(c, statuses(&vec![JobStatus::Pending; 60]));
    assert_eq!(t.calls, 60);
    assert_eq!(t.sleeps, vec![2000; 59]);
    assert!(matches!(t.result, Err(BankrError::PollTimeout { attempts: 60 })));
}

#[test]
fn decide_per_status() {
    assert_eq!(decide(1, 3, JobStatus::Pending), PollDecision::Retry);
    assert_eq!(decide(2, 3, JobStatus::Processing), PollDecision::Retry);
    assert_eq!(decide(3, 3, JobStatus::Processing), PollDecision::GiveUp);
    assert_eq!(decide(3, 3, JobStatus::Completed), PollDecision::Succeed);
    assert_eq!(decide(1, 3, JobStatus::Failed), PollDecision::Fail);
    assert_eq!(decide(1, 3, JobStatus::Cancelled), PollDecision::Cancel);
}
