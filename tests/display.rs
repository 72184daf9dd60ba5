use bankr_agent::display::{
    format_bankr_club_status, format_social_accounts, format_wallets, job_error_notice,
    job_status_lines, wallet_line,
};
use bankr_agent::types::{
    BankrClub, JobResponse, JobStatus, SocialAccount, UserInfoResponse, Wallet,
};

/// Build a minimal `UserInfoResponse` for tests.
fn empty_response() -> UserInfoResponse {
    UserInfoResponse {
        success: true,
        wallets: vec![],
        social_accounts: vec![],
        ref_code: None,
        bankr_club: None,
        leaderboard: None,
    }
}

fn job(status: JobStatus) -> JobResponse {
    JobResponse {
        success: true,
        job_id: "job_1".to_owned(),
        thread_id: None,
        status,
        prompt: "price of ETH?".to_owned(),
        created_at: "2024-01-01T00:00:00Z".to_owned(),
        cancellable: None,
        status_updates: None,
        started_at: None,
        response: None,
        rich_data: None,
        completed_at: None,
        processing_time: None,
        error: None,
        cancelled_at: None,
    }
}

#[test]
fn test_format_wallets_empty() {
    let resp = empty_response();
    assert_eq!(format_wallets(&resp), "Wallets:  (none)");
}

#[test]
fn test_format_wallets() {
    let mut resp = empty_response();
    resp.wallets = vec![
        Wallet { chain: "evm".to_owned(), address: "0xAbC123".to_owned() },
        Wallet { chain: "solana".to_owned(), address: "So1anaAddr".to_owned() },
    ];

    let output = format_wallets(&resp);
    assert!(output.starts_with("Wallets:"));
    assert!(output.contains("EVM"));
    assert!(output.contains("0xAbC123"));
    assert!(output.contains("SOLANA"));
    assert!(output.contains("So1anaAddr"));
}

#[test]
fn format_wallets_exact_layout() {
    let mut resp = empty_response();
    resp.wallets = vec![
        Wallet { chain: "evm".to_owned(), address: "0xAbC123".to_owned() },
        Wallet { chain: "solana".to_owned(), address: "So1anaAddr".to_owned() },
    ];
    assert_eq!(format_wallets(&resp), "Wallets:\n  EVM      0xAbC123\n  SOLANA   So1anaAddr");
}

#[test]
fn wallet_line_pads_to_eight() {
    assert_eq!(wallet_line("EVM", "0x1"), "  EVM      0x1");
    assert_eq!(wallet_line("LONGCHAIN", "a"), "  LONGCHAIN a");
}

#[test]
fn test_format_bankr_club_active() {
    let mut resp = empty_response();
    resp.bankr_club = Some(BankrClub {
        active: true,
        subscription_type: Some("monthly".to_owned()),
        renew_or_cancel_on: None,
    });
    assert_eq!(format_bankr_club_status(&resp), "monthly");
}

#[test]
fn test_format_bankr_club_active_no_type() {
    let mut resp = empty_response();
    resp.bankr_club =
        Some(BankrClub { active: true, subscription_type: None, renew_or_cancel_on: None });
    assert_eq!(format_bankr_club_status(&resp), "Active");
}

#[test]
fn test_format_bankr_club_inactive() {
    let mut resp = empty_response();
    resp.bankr_club = Some(BankrClub {
        active: false,
        subscription_type: Some("yearly".to_owned()),
        renew_or_cancel_on: None,
    });
    assert_eq!(format_bankr_club_status(&resp), "Inactive");
}

#[test]
fn test_format_bankr_club_none() {
    let resp = empty_response();
    assert_eq!(format_bankr_club_status(&resp), "Inactive");
}

#[test]
fn test_format_social_accounts_empty() {
    let resp = empty_response();
    assert_eq!(format_social_accounts(&resp), "Social Accounts:  (none)");
}

#[test]
fn test_format_social_accounts() {
    let mut resp = empty_response();
    resp.social_accounts = vec![
        SocialAccount { platform: "twitter".to_owned(), username: Some("@bankr_user".to_owned()) },
        SocialAccount { platform: "telegram".to_owned(), username: None },
    ];

    let output = format_social_accounts(&resp);
    assert!(output.starts_with("Social Accounts:"));
    assert!(output.contains("twitter"));
    assert!(output.contains("@bankr_user"));
    assert!(output.contains("telegram"));
    assert!(output.contains("(not set)"));
}

#[test]
fn format_social_accounts_exact_layout() {
    let mut resp = empty_response();
    resp.social_accounts = vec![
        SocialAccount { platform: "twitter".to_owned(), username: Some("@bankr_user".to_owned()) },
        SocialAccount { platform: "telegram".to_owned(), username: None },
    ];
    assert_eq!(
        format_social_accounts(&resp),
        "Social Accounts:\n  twitter      @bankr_user\n  telegram     (not set)"
    );
}

#[test]
fn job_status_lines_of_completed_job() {
    let mut j = job(JobStatus::Completed);
    j.started_at = Some("2024-01-01T00:00:01Z".to_owned());
    j.completed_at = Some("2024-01-01T00:00:05Z".to_owned());
    j.processing_time = Some(4012);
    j.thread_id = Some("thr_9".to_owned());
    j.response = Some("ETH is $3000".to_owned());
    let lines = job_status_lines(&j);
    assert_eq!(
        lines,
        vec![
            "Job ID:      job_1",
            "Status:      completed",
            "Prompt:      price of ETH?",
            "Created:     2024-01-01T00:00:00Z",
            "Started:     2024-01-01T00:00:01Z",
            "Completed:   2024-01-01T00:00:05Z",
            "Duration:    4012ms",
            "Thread:      thr_9",
            "",
            "Response:",
            "ETH is $3000",
        ]
    );
    assert_eq!(job_error_notice(&j), None);
}

#[test]
fn job_status_lines_of_pending_job() {
    let mut j = job(JobStatus::Pending);
    j.processing_time = Some(0);
    j.response = Some("not shown".to_owned());
    assert_eq!(
        job_status_lines(&j),
        vec![
            "Job ID:      job_1",
            "Status:      pending",
            "Prompt:      price of ETH?",
            "Created:     2024-01-01T00:00:00Z",
            "Duration:    0ms",
        ]
    );
}

#[test]
fn job_error_notice_of_failed_job() {
    let mut j = job(JobStatus::Failed);
    assert_eq!(job_error_notice(&j), None);
    j.error = Some("insufficient funds".to_owned());
    assert_eq!(job_error_notice(&j), Some("Error: insufficient funds".to_owned()));
    assert_eq!(job_status_lines(&j).len(), 4);
}
