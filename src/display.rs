//! Text sections of the profile view: wallets, social accounts and the
//! Bankr Club status.
use vstd::prelude::*;

use crate::types::{
    status_name, BankrClub, JobResponse, JobStatus, SocialAccount, UserInfoResponse, Wallet,
};

verus! {

/// The upper-case form of a text, as `str::to_uppercase` gives it.
pub uninterp spec fn upper_of(s: Seq<char>) -> Seq<char>;

/// Relies on `str::to_uppercase`: its result depends on the characters alone.
#[verifier::external_body]
fn uppercase(s: &str) -> (r: String)
    ensures
        r@ == upper_of(s@),
{
    s.to_uppercase()
}

/// `n` spaces.
pub open spec fn spaces(n: nat) -> Seq<char> {
    Seq::new(n, |i: int| ' ')
}

/// `s` left-aligned in a field of `width` characters, as `{:<width}` writes it.
pub open spec fn pad_right(s: Seq<char>, width: nat) -> Seq<char> {
    if s.len() >= width {
        s
    } else {
        s + spaces((width - s.len()) as nat)
    }
}

/// `head`, then each of `lines` on a line of its own.
pub open spec fn with_lines(head: Seq<char>, lines: Seq<Seq<char>>) -> Seq<char>
    decreases lines.len(),
{
    if lines.len() == 0 {
        head
    } else {
        with_lines(head, lines.drop_last()) + "\n"@ + lines.last()
    }
}

fn append_padded(out: &mut String, s: &str, width: usize)
    ensures
        final(out)@ == old(out)@ + pad_right(s@, width as nat),
{
    out.append(s);
    let n = s.unicode_len();
    let mut k: usize = n;
    assert(out@ =~= old(out)@ + s@ + spaces(0));
    while k < width
        invariant
            n == s@.len(),
            n <= k,
            n < width ==> k <= width,
            n >= width ==> k == n,
            out@ == old(out)@ + s@ + spaces((k - n) as nat),
        decreases width - k,
    {
        proof {
            reveal_strlit(" ");
        }
        out.append(" ");
        k = k + 1;
        assert(out@ =~= old(out)@ + s@ + spaces((k - n) as nat));
    }
    if n >= width {
        assert(out@ =~= old(out)@ + s@);
    } else {
        assert(k == width);
    }
}

/// One wallet line: two spaces, the upper-case chain in a field of eight,
/// a space, and the address.
pub open spec fn wallet_line_of(chain_upper: Seq<char>, address: Seq<char>) -> Seq<char> {
    "  "@ + pad_right(chain_upper, 8) + " "@ + address
}

/// The line of one wallet.
pub open spec fn wallet_text(w: Wallet) -> Seq<char> {
    wallet_line_of(upper_of(w.chain@), w.address@)
}

/// The wallets section: a heading and one line per wallet, or a single line
/// that says there is none.
pub open spec fn wallets_text(wallets: Seq<Wallet>) -> Seq<char> {
    if wallets.len() == 0 {
        "Wallets:  (none)"@
    } else {
        with_lines("Wallets:"@, wallets.map_values(|w: Wallet| wallet_text(w)))
    }
}

/// Formats one wallet line from the chain name already in upper case.
pub fn wallet_line(chain_upper: &str, address: &str) -> (r: String)
    ensures
        r@ == wallet_line_of(chain_upper@, address@),
{
    let mut r = String::from_str("  ");
    append_padded(&mut r, chain_upper, 8);
    r.append(" ");
    r.append(address);
    r
}

/// Formats the wallets section of a profile.
pub fn format_wallets(resp: &UserInfoResponse) -> (r: String)
    ensures
        r@ == wallets_text(resp.wallets@),
{
    let wallets = &resp.wallets;
    if wallets.len() == 0 {
        return String::from_str("Wallets:  (none)");
    }
    let mut out = String::from_str("Wallets:");
    let mut i: usize = 0;
    while i < wallets.len()
        invariant
            i <= wallets@.len(),
            out@ == with_lines(
                "Wallets:"@,
                wallets@.take(i as int).map_values(|w: Wallet| wallet_text(w)),
            ),
        decreases wallets@.len() - i,
    {
        let w = &wallets[i];
        let chain = uppercase(w.chain.as_str());
        let line = wallet_line(chain.as_str(), w.address.as_str());
        out.append("\n");
        out.append(line.as_str());
        proof {
            let f = |w: Wallet| wallet_text(w);
            let before = wallets@.take(i as int).map_values(f);
            let after = wallets@.take(i + 1).map_values(f);
            assert(after.drop_last() =~= before);
            assert(after.last() == wallet_text(wallets@[i as int]));
        }
        i = i + 1;
    }
    assert(wallets@.take(wallets@.len() as int) =~= wallets@);
    out
}

/// The username shown for a social account, or `(not set)`.
pub open spec fn username_text(username: Option<String>) -> Seq<char> {
    match username {
        Some(u) => u@,
        None => "(not set)"@,
    }
}

/// The line of one social account: two spaces, the platform in a field of
/// twelve, a space, and the username.
pub open spec fn social_text(a: SocialAccount) -> Seq<char> {
    "  "@ + pad_right(a.platform@, 12) + " "@ + username_text(a.username)
}

/// The social accounts section: a heading and one line per account, or a
/// single line that says there is none.
pub open spec fn social_accounts_text(accounts: Seq<SocialAccount>) -> Seq<char> {
    if accounts.len() == 0 {
        "Social Accounts:  (none)"@
    } else {
        with_lines("Social Accounts:"@, accounts.map_values(|a: SocialAccount| social_text(a)))
    }
}

/// Formats the social accounts section of a profile.
pub fn format_social_accounts(resp: &UserInfoResponse) -> (r: String)
    ensures
        r@ == social_accounts_text(resp.social_accounts@),
{
    let accounts = &resp.social_accounts;
    if accounts.len() == 0 {
        return String::from_str("Social Accounts:  (none)");
    }
    let mut out = String::from_str("Social Accounts:");
    let mut i: usize = 0;
    while i < accounts.len()
        invariant
            i <= accounts@.len(),
            out@ == with_lines(
                "Social Accounts:"@,
                accounts@.take(i as int).map_values(|a: SocialAccount| social_text(a)),
            ),
        decreases accounts@.len() - i,
    {
        let a = &accounts[i];
        let ghost before_out = out@;
        out.append("\n");
        out.append("  ");
        append_padded(&mut out, a.platform.as_str(), 12);
        out.append(" ");
        match &a.username {
            Some(u) => out.append(u.as_str()),
            None => out.append("(not set)"),
        }
        proof {
            let f = |a: SocialAccount| social_text(a);
            let before = accounts@.take(i as int).map_values(f);
            let after = accounts@.take(i + 1).map_values(f);
            assert(after.drop_last() =~= before);
            assert(after.last() == social_text(accounts@[i as int]));
            assert(out@ =~= before_out + "\n"@ + social_text(accounts@[i as int]));
        }
        i = i + 1;
    }
    assert(accounts@.take(accounts@.len() as int) =~= accounts@);
    out
}

/// The Bankr Club label: the subscription type of an active membership
/// (`Active` if it has none), else `Inactive`.
pub open spec fn club_status_text(club: Option<BankrClub>) -> Seq<char> {
    match club {
        Some(c) => if c.active {
            match c.subscription_type {
                Some(t) => t@,
                None => "Active"@,
            }
        } else {
            "Inactive"@
        },
        None => "Inactive"@,
    }
}

/// Formats the Bankr Club status of a profile.
pub fn format_bankr_club_status(resp: &UserInfoResponse) -> (r: String)
    ensures
        r@ == club_status_text(resp.bankr_club),
{
    match &resp.bankr_club {
        Some(club) => if club.active {
            match &club.subscription_type {
                Some(t) => t.clone(),
                None => String::from_str("Active"),
            }
        } else {
            String::from_str("Inactive")
        },
        None => String::from_str("Inactive"),
    }
}


/// The decimal digit `d`.
pub open spec fn digit_char(d: nat) -> char {
    if d < 10 {
        ('0' as u8 + d) as char
    } else {
        '?'
    }
}

/// Decimal notation of `n`, without leading zeros.
pub open spec fn decimal(n: nat) -> Seq<char>
    decreases n,
{
    if n < 10 {
        seq![digit_char(n)]
    } else {
        decimal(n / 10) + seq![digit_char(n % 10)]
    }
}

fn digit_str(d: u64) -> (r: &'static str)
    requires
        d < 10,
    ensures
        r@ == seq![digit_char(d as nat)],
{
    proof {
        reveal_strlit("0");
        reveal_strlit("1");
        reveal_strlit("2");
        reveal_strlit("3");
        reveal_strlit("4");
        reveal_strlit("5");
        reveal_strlit("6");
        reveal_strlit("7");
        reveal_strlit("8");
        reveal_strlit("9");
    }
    let r = match d {
        0 => "0",
        1 => "1",
        2 => "2",
        3 => "3",
        4 => "4",
        5 => "5",
        6 => "6",
        7 => "7",
        8 => "8",
        _ => "9",
    };
    assert(r@ =~= seq![digit_char(d as nat)]);
    r
}

/// Appends the decimal notation of `n`.
fn append_decimal(out: &mut String, n: u64)
    ensures
        final(out)@ == old(out)@ + decimal(n as nat),
    decreases n,
{
    if n >= 10 {
        append_decimal(out, n / 10);
    }
    out.append(digit_str(n % 10));
    assert(out@ =~= old(out)@ + decimal(n as nat));
}


/// The texts of a list of lines.
pub open spec fn texts(lines: Seq<String>) -> Seq<Seq<char>> {
    lines.map_values(|s: String| s@)
}

/// A line `label` + value when the value is present, else no line.
pub open spec fn optional_line(label: Seq<char>, value: Option<String>) -> Seq<Seq<char>> {
    match value {
        Some(v) => seq![label + v@],
        None => seq![],
    }
}

/// The lines that describe a job: identity, status, prompt and times, the
/// processing time and thread when known, and the answer of a completed job.
pub open spec fn job_status_text(job: JobResponse) -> Seq<Seq<char>> {
    seq![
        "Job ID:      "@ + job.job_id@,
        "Status:      "@ + status_name(job.status),
        "Prompt:      "@ + job.prompt@,
        "Created:     "@ + job.created_at@,
    ] + optional_line("Started:     "@, job.started_at) + optional_line(
        "Completed:   "@,
        job.completed_at,
    ) + match job.processing_time {
        Some(ms) => seq!["Duration:    "@ + decimal(ms as nat) + "ms"@],
        None => seq![],
    } + optional_line("Thread:      "@, job.thread_id) + if job.status == JobStatus::Completed
        && job.response is Some {
        seq![""@, "Response:"@, job.response->0@]
    } else {
        seq![]
    }
}

fn push_line(lines: &mut Vec<String>, line: String)
    ensures
        texts(final(lines)@) == texts(old(lines)@).push(line@),
{
    let ghost l = line@;
    lines.push(line);
    assert(texts(lines@) =~= texts(old(lines)@).push(l));
}

fn labelled(label: &str, value: &str) -> (r: String)
    ensures
        r@ == label@ + value@,
{
    let mut r = String::from_str(label);
    r.append(value);
    r
}

fn push_optional(lines: &mut Vec<String>, label: &str, value: &Option<String>)
    ensures
        texts(final(lines)@) == texts(old(lines)@) + optional_line(label@, *value),
{
    match value {
        Some(v) => push_line(lines, labelled(label, v.as_str())),
        None => {},
    }
    assert(texts(lines@) =~= texts(old(lines)@) + optional_line(label@, *value));
}

/// The lines that describe `job`, in display order.
pub fn job_status_lines(job: &JobResponse) -> (r: Vec<String>)
    ensures
        texts(r@) == job_status_text(*job),
{
    let mut lines: Vec<String> = Vec::new();
    push_line(&mut lines, labelled("Job ID:      ", job.job_id.as_str()));
    push_line(&mut lines, labelled("Status:      ", job.status.as_str()));
    push_line(&mut lines, labelled("Prompt:      ", job.prompt.as_str()));
    push_line(&mut lines, labelled("Created:     ", job.created_at.as_str()));
    push_optional(&mut lines, "Started:     ", &job.started_at);
    push_optional(&mut lines, "Completed:   ", &job.completed_at);
    let ghost before_duration = texts(lines@);
    if let Some(ms) = job.processing_time {
        let mut d = String::from_str("Duration:    ");
        append_decimal(&mut d, ms);
        d.append("ms");
        push_line(&mut lines, d);
    }
    let ghost after_duration = texts(lines@);
    assert(after_duration =~= before_duration + match job.processing_time {
        Some(ms) => seq!["Duration:    "@ + decimal(ms as nat) + "ms"@],
        None => Seq::<Seq<char>>::empty(),
    });
    push_optional(&mut lines, "Thread:      ", &job.thread_id);
    if let JobStatus::Completed = job.status {
        if let Some(resp) = &job.response {
            push_line(&mut lines, String::from_str(""));
            push_line(&mut lines, String::from_str("Response:"));
            push_line(&mut lines, resp.clone());
        }
    }
    assert(texts(lines@) =~= job_status_text(*job));
    lines
}

/// The error notice of a failed job that carries error text: `Error: ` and
/// the text. Other jobs have none.
pub fn job_error_notice(job: &JobResponse) -> (r: Option<String>)
    ensures
        match r {
            Some(m) => job.status == JobStatus::Failed && job.error is Some && m@ == "Error: "@
                + job.error->0@,
            None => !(job.status == JobStatus::Failed && job.error is Some),
        },
{
    match (&job.status, &job.error) {
        (JobStatus::Failed, Some(e)) => Some(labelled("Error: ", e.as_str())),
        _ => None,
    }
}

} // verus!
