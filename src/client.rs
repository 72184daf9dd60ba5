//! Endpoints of the agent service: base URL and request paths.
use vstd::prelude::*;

verus! {

/// Base URL of the agent service when none is configured.
pub const DEFAULT_BASE_URL: &'static str = "https://api.bankr.bot";

/// `GET` path of the profile of the authenticated user.
pub const ME_PATH: &'static str = "/agent/me";

/// `POST` path that submits a prompt.
pub const PROMPT_PATH: &'static str = "/agent/prompt";

/// `POST` path that signs without broadcasting.
pub const SIGN_PATH: &'static str = "/agent/sign";

/// `POST` path that submits a transaction.
pub const SUBMIT_PATH: &'static str = "/agent/submit";

/// Path of a job: `/agent/job/{jobId}`.
pub open spec fn job_path_of(job_id: Seq<char>) -> Seq<char> {
    "/agent/job/"@ + job_id
}

/// `GET` path of the job `job_id`.
pub fn job_path(job_id: &str) -> (r: String)
    ensures
        r@ == job_path_of(job_id@),
{
    let mut p = String::from_str("/agent/job/");
    p.append(job_id);
    p
}

/// `POST` path that cancels the job `job_id`: `/agent/job/{jobId}/cancel`.
pub fn cancel_path(job_id: &str) -> (r: String)
    ensures
        r@ == job_path_of(job_id@) + "/cancel"@,
{
    let mut p = job_path(job_id);
    p.append("/cancel");
    p
}

} // verus!
