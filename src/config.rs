//! Stored CLI settings, and the rules that read them: which API key wins,
//! and how a key is shown.
use vstd::prelude::*;

use crate::client::DEFAULT_BASE_URL;

verus! {

/// Settings kept between runs of the command-line front end.
#[derive(Clone, Debug, Default, PartialEq, Eq)]
pub struct BankrConfig {
    /// API key for the agent service.
    pub api_key: Option<String>,
    /// Base URL of the agent service.
    pub api_url: Option<String>,
}

/// A key as displayed: keys of fewer than ten characters become `***`, the
/// others keep their first six and last four characters around `...`.
pub open spec fn masked(key: Seq<char>) -> Seq<char> {
    if key.len() < 10 {
        "***"@
    } else {
        key.take(6) + "..."@ + key.skip(key.len() - 4)
    }
}

/// Masks an API key for display, e.g. `bk_WKW...46ZE`.
pub fn mask_api_key(key: &str) -> (r: String)
    ensures
        r@ == masked(key@),
{
    let n = key.unicode_len();
    if n < 10 {
        return String::from_str("***");
    }
    let mut r = String::from_str(key.substring_char(0, 6));
    r.append("...");
    r.append(key.substring_char(n - 4, n));
    r
}

/// Resolves the API key: the command-line flag wins over the environment
/// variable, which wins over the stored configuration.
pub fn resolve_api_key(cli_flag: Option<&str>, env_var: Option<&str>, config: &BankrConfig) -> (r:
    Option<String>)
    ensures
        match cli_flag {
            Some(f) => r is Some && r->0@ == f@,
            None => match env_var {
                Some(e) => r is Some && r->0@ == e@,
                None => r == config.api_key,
            },
        },
{
    match cli_flag {
        Some(f) => Some(String::from_str(f)),
        None => match env_var {
            Some(e) => Some(String::from_str(e)),
            None => match &config.api_key {
                Some(k) => Some(k.clone()),
                None => None,
            },
        },
    }
}

impl BankrConfig {
    /// Records the credentials of a successful login; a base URL given with
    /// it replaces the stored one.
    pub fn record_login(&mut self, api_key: String, api_url: Option<String>)
        ensures
            final(self).api_key == Some(api_key),
            final(self).api_url == match api_url {
                Some(u) => Some(u),
                None => old(self).api_url,
            },
    {
        self.api_key = Some(api_key);
        if let Some(u) = api_url {
            self.api_url = Some(u);
        }
    }

    /// Forgets the stored API key and keeps the rest.
    pub fn clear_api_key(&mut self)
        ensures
            final(self).api_key is None,
            final(self).api_url == old(self).api_url,
    {
        self.api_key = None;
    }

    /// The stored key as displayed, or `Not set`.
    pub fn masked_api_key(&self) -> (r: String)
        ensures
            r@ == match self.api_key {
                Some(k) => masked(k@),
                None => "Not set"@,
            },
    {
        match &self.api_key {
            Some(k) => mask_api_key(k.as_str()),
            None => String::from_str("Not set"),
        }
    }

    /// The stored base URL, or the service's default one.
    pub fn api_url_or_default(&self) -> (r: String)
        ensures
            r@ == match self.api_url {
                Some(u) => u@,
                None => DEFAULT_BASE_URL@,
            },
    {
        match &self.api_url {
            Some(u) => u.clone(),
            None => String::from_str(DEFAULT_BASE_URL),
        }
    }
}


/// A text without its leading and trailing white space, as `str::trim` gives it.
pub uninterp spec fn trimmed(s: Seq<char>) -> Seq<char>;

/// Relies on `str::trim`: its result depends on the characters alone.
#[verifier::external_body]
fn trim(s: &str) -> (r: &str)
    ensures
        r@ == trimmed(s@),
{
    s.trim()
}

/// The API key typed on a line of input: the line without surrounding white
/// space, refused (`None`) when nothing is left.
pub fn entered_api_key(line: &str) -> (r: Option<String>)
    ensures
        match r {
            Some(k) => k@ == trimmed(line@) && k@.len() > 0,
            None => trimmed(line@).len() == 0,
        },
{
    let t = trim(line);
    if t.unicode_len() == 0 {
        None
    } else {
        Some(String::from_str(t))
    }
}

} // verus!
