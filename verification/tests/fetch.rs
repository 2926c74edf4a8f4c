use ghgrab::fetch::{
    check_status, fallback_after, listing_outcome, text_outcome, write_decimal, FetchError,
};
use ghgrab::github::GitHubUrl;
use ghgrab::item::RepoItem;

fn place(branch: &str, path: &str) -> GitHubUrl {
    GitHubUrl {
        owner: "o".to_string(),
        repo: "r".to_string(),
        branch: branch.to_string(),
        path: path.to_string(),
    }
}

#[test]
fn statuses() {
    assert_eq!(check_status(200), Ok(()));
    assert_eq!(check_status(204), Ok(()));
    assert_eq!(check_status(299), Ok(()));
    assert_eq!(check_status(403), Err(FetchError::RateLimited));
    assert_eq!(check_status(404), Err(FetchError::NotFound));
    assert_eq!(check_status(500), Err(FetchError::ApiError(500)));
    assert_eq!(check_status(300), Err(FetchError::ApiError(300)));
    assert_eq!(check_status(199), Err(FetchError::ApiError(199)));
    assert_eq!(check_status(401), Err(FetchError::ApiError(401)));
    assert_eq!(check_status(0), Err(FetchError::ApiError(0)));
}

#[test]
fn listing_status_decides_before_the_body() {
    assert_eq!(listing_outcome(404, Some(Vec::new())), Err(FetchError::NotFound));
    assert_eq!(listing_outcome(403, None), Err(FetchError::RateLimited));
    assert_eq!(listing_outcome(502, None), Err(FetchError::ApiError(502)));
    assert_eq!(listing_outcome(200, None), Err(FetchError::DecodeError));
    let rows: Vec<RepoItem> = Vec::new();
    assert_eq!(listing_outcome(200, Some(rows)), Ok(Vec::new()));
}

#[test]
fn text_outcomes() {
    assert_eq!(text_outcome(200, Some("abc".to_string())), Ok("abc".to_string()));
    assert_eq!(text_outcome(200, None), Err(FetchError::DecodeError));
    assert_eq!(text_outcome(404, Some("abc".to_string())), Err(FetchError::NotFound));
}

#[test]
fn messages() {
    assert_eq!(
        FetchError::RateLimited.message(),
        "Rate limit exceeded. Please try again later."
    );
    assert_eq!(FetchError::NotFound.message(), "Path not found in repository");
    assert_eq!(FetchError::ApiError(500).message(), "GitHub API error: 500");
    assert_eq!(FetchError::ApiError(7).message(), "GitHub API error: 7");
    assert_eq!(
        FetchError::DecodeError.message(),
        "Failed to parse GitHub API response"
    );
    assert_eq!(
        FetchError::RequestFailed.message(),
        "Failed to send request to GitHub API"
    );
}

#[test]
fn decimal_writing() {
    assert_eq!(write_decimal(0), "0");
    assert_eq!(write_decimal(9), "9");
    assert_eq!(write_decimal(10), "10");
    assert_eq!(write_decimal(1234567890), "1234567890");
    assert_eq!(write_decimal(u64::MAX), "18446744073709551615");
}

#[test]
fn missing_main_is_retried_once_on_master() {
    let first = place("main", "docs");
    let next = fallback_after(&first, FetchError::NotFound).unwrap();
    assert_eq!(next.owner, "o");
    assert_eq!(next.repo, "r");
    assert_eq!(next.branch, "master");
    assert_eq!(next.path, "docs");
    assert!(fallback_after(&next, FetchError::NotFound).is_none());
}

#[test]
fn other_branches_and_failures_are_not_retried() {
    assert!(fallback_after(&place("dev", ""), FetchError::NotFound).is_none());
    assert!(fallback_after(&place("master", ""), FetchError::NotFound).is_none());
    assert!(fallback_after(&place("main", ""), FetchError::RateLimited).is_none());
    assert!(fallback_after(&place("main", ""), FetchError::ApiError(500)).is_none());
    assert!(fallback_after(&place("main", ""), FetchError::DecodeError).is_none());
    assert!(fallback_after(&place("main", ""), FetchError::RequestFailed).is_none());
}
