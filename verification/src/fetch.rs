//! What an answer of the contents API means: the kinds of failure, and the
//! one retry on another branch that a missing `main` allows.

use vstd::prelude::*;
use vstd::string::*;
use crate::github::{GitHubRef, GitHubUrl};
use crate::item::RepoItem;
use crate::text::str_eq;

verus! {

/// Why a listing or a file body could not be had.
#[derive(Debug, Clone, Copy, PartialEq, Eq, Structural)]
pub enum FetchError {
    /// Status 403: the API's rate limit is used up.
    RateLimited,
    /// Status 404: no such path on that branch.
    NotFound,
    /// Any other status outside 200 to 299.
    ApiError(u16),
    /// The body was not the expected JSON.
    DecodeError,
    /// The request got no answer at all.
    RequestFailed,
}

/// The text of one decimal digit.
pub open spec fn digit_text(d: int) -> Seq<char> {
    if d == 0 {
        "0"@
    } else if d == 1 {
        "1"@
    } else if d == 2 {
        "2"@
    } else if d == 3 {
        "3"@
    } else if d == 4 {
        "4"@
    } else if d == 5 {
        "5"@
    } else if d == 6 {
        "6"@
    } else if d == 7 {
        "7"@
    } else if d == 8 {
        "8"@
    } else {
        "9"@
    }
}

/// The number `n` written in base ten, without leading zeros.
pub open spec fn decimal_text(n: nat) -> Seq<char>
    decreases n,
{
    if n < 10 {
        digit_text(n as int)
    } else {
        decimal_text(n / 10) + digit_text((n % 10) as int)
    }
}

/// Writes one decimal digit.
fn digit_str(d: u64) -> (r: &'static str)
    requires
        d < 10,
    ensures
        r@ == digit_text(d as int),
{
    if d == 0 {
        "0"
    } else if d == 1 {
        "1"
    } else if d == 2 {
        "2"
    } else if d == 3 {
        "3"
    } else if d == 4 {
        "4"
    } else if d == 5 {
        "5"
    } else if d == 6 {
        "6"
    } else if d == 7 {
        "7"
    } else if d == 8 {
        "8"
    } else {
        "9"
    }
}

/// Writes `n` in base ten.
pub fn write_decimal(n: u64) -> (r: String)
    ensures
        r@ == decimal_text(n as nat),
    decreases n,
{
    if n < 10 {
        digit_str(n).to_owned()
    } else {
        let mut out = write_decimal(n / 10);
        out.append(digit_str(n % 10));
        out
    }
}

/// The failure that an HTTP status stands for, if it is one.
pub open spec fn status_error(status: u16) -> Option<FetchError> {
    if status == 403 {
        Some(FetchError::RateLimited)
    } else if status == 404 {
        Some(FetchError::NotFound)
    } else if !(200 <= status < 300) {
        Some(FetchError::ApiError(status))
    } else {
        None
    }
}

/// Classifies an HTTP status.
pub fn check_status(status: u16) -> (r: Result<(), FetchError>)
    ensures
        match r {
            Ok(_) => status_error(status) is None,
            Err(e) => status_error(status) == Some(e),
        },
{
    if status == 403 {
        Err(FetchError::RateLimited)
    } else if status == 404 {
        Err(FetchError::NotFound)
    } else if status < 200 || status >= 300 {
        Err(FetchError::ApiError(status))
    } else {
        Ok(())
    }
}

/// The outcome of a request for a listing: `status` is the HTTP status of the
/// answer, `decoded` the rows read from its body, or `None` where the body
/// was malformed. The status decides first.
pub fn listing_outcome(status: u16, decoded: Option<Vec<RepoItem>>) -> (r: Result<
    Vec<RepoItem>,
    FetchError,
>)
    ensures
        match status_error(status) {
            Some(e) => r == Err::<Vec<RepoItem>, FetchError>(e),
            None => match decoded {
                Some(rows) => r == Ok::<Vec<RepoItem>, FetchError>(rows),
                None => r == Err::<Vec<RepoItem>, FetchError>(FetchError::DecodeError),
            },
        },
{
    match check_status(status) {
        Err(e) => Err(e),
        Ok(_) => match decoded {
            Some(rows) => Ok(rows),
            None => Err(FetchError::DecodeError),
        },
    }
}

/// The outcome of a request for a file's text: `body` is `None` where the
/// body could not be read as text.
pub fn text_outcome(status: u16, body: Option<String>) -> (r: Result<String, FetchError>)
    ensures
        match status_error(status) {
            Some(e) => r == Err::<String, FetchError>(e),
            None => match body {
                Some(text) => r == Ok::<String, FetchError>(text),
                None => r == Err::<String, FetchError>(FetchError::DecodeError),
            },
        },
{
    match check_status(status) {
        Err(e) => Err(e),
        Ok(_) => match body {
            Some(text) => Ok(text),
            None => Err(FetchError::DecodeError),
        },
    }
}

impl FetchError {
    /// The failure in words, as a mathematical value.
    pub open spec fn message_text(self) -> Seq<char> {
        match self {
            FetchError::RateLimited => "Rate limit exceeded. Please try again later."@,
            FetchError::NotFound => "Path not found in repository"@,
            FetchError::ApiError(status) => "GitHub API error: "@ + decimal_text(status as nat),
            FetchError::DecodeError => "Failed to parse GitHub API response"@,
            FetchError::RequestFailed => "Failed to send request to GitHub API"@,
        }
    }

    /// The failure in words.
    pub fn message(&self) -> (r: String)
        ensures
            r@ == self.message_text(),
    {
        match self {
            FetchError::RateLimited => "Rate limit exceeded. Please try again later.".to_owned(),
            FetchError::NotFound => "Path not found in repository".to_owned(),
            FetchError::ApiError(status) => {
                let mut out = "GitHub API error: ".to_owned();
                let n = write_decimal(*status as u64);
                out.append(n.as_str());
                out
            },
            FetchError::DecodeError => "Failed to parse GitHub API response".to_owned(),
            FetchError::RequestFailed => "Failed to send request to GitHub API".to_owned(),
        }
    }
}

/// The place to ask next after the listing of `r` failed with `e`: the same
/// place on `master`, where `r` is on `main` and was not found.
pub open spec fn fallback_of(r: GitHubRef, e: FetchError) -> Option<GitHubRef> {
    if e == FetchError::NotFound && r.branch == "main"@ {
        Some(GitHubRef { branch: "master"@, ..r })
    } else {
        None
    }
}

/// Decides the retry after a failed listing of `url`.
pub fn fallback_after(url: &GitHubUrl, error: FetchError) -> (r: Option<GitHubUrl>)
    ensures
        match r {
            Some(next) => fallback_of(url@, error) == Some(next@),
            None => fallback_of(url@, error) is None,
        },
{
    match error {
        FetchError::NotFound => {
            if str_eq(url.branch.as_str(), "main") {
                Some(
                    GitHubUrl {
                        owner: url.owner.clone(),
                        repo: url.repo.clone(),
                        branch: "master".to_owned(),
                        path: url.path.clone(),
                    },
                )
            } else {
                None
            }
        },
        _ => None,
    }
}

/// A listing is retried at most once: no failure of the retry on `master`
/// leads to another retry, and a place on a branch other than `main` is
/// never retried.
pub proof fn lemma_fallback_once(r: GitHubRef, first: FetchError, second: FetchError)
    ensures
        fallback_of(r, first) is Some <==> (first == FetchError::NotFound && r.branch == "main"@),
        fallback_of(r, first) matches Some(next) ==> {
            &&& next.branch == "master"@
            &&& next.owner == r.owner
            &&& next.repo == r.repo
            &&& next.path == r.path
            &&& fallback_of(next, second) is None
        },
        r.branch != "main"@ ==> fallback_of(r, first) is None,
{
    reveal_strlit("main");
    reveal_strlit("master");
    assert("main"@.len() != "master"@.len());
}

} // verus!
