//! Addresses of places in a GitHub repository, and the contents endpoint
//! that lists each of them.

use vstd::prelude::*;
use vstd::string::*;
use crate::text::{
    count_of, lemma_count_joined, lemma_count_none, opt_view, str_eq, views_of,
};

verus! {

/// What the address logic reads of an absolute URL: its host, if it has one,
/// and the segments of its path, unless the URL cannot be a base.
pub struct UrlParts {
    pub host: Option<String>,
    pub segments: Option<Vec<String>>,
}

impl View for UrlParts {
    type V = (Option<Seq<char>>, Option<Seq<Seq<char>>>);

    open spec fn view(&self) -> (Option<Seq<char>>, Option<Seq<Seq<char>>>) {
        (
            opt_view(self.host),
            match self.segments {
                Some(v) => Some(views_of(v@)),
                None => None,
            },
        )
    }
}

/// The host and path segments that the `url` crate reads out of the text
/// `input`, or `None` where it does not accept `input` as an absolute URL.
pub uninterp spec fn url_parts(input: Seq<char>) -> Option<
    (Option<Seq<char>>, Option<Seq<Seq<char>>>),
>;

/// Parses `input` with `url::Url::parse` and hands back what `Url::host_str`
/// and `Url::path_segments` give for it, as owned strings. Nothing is proved
/// of this function: its result is named `url_parts`, and it is `None`
/// exactly where `Url::parse` returns an error.
#[verifier::external_body]
fn split_url(input: &str) -> (r: Option<UrlParts>)
    ensures
        match r {
            Some(p) => url_parts(input@) == Some(p@),
            None => url_parts(input@) is None,
        },
{
    match url::Url::parse(input) {
        Ok(u) => Some(
            UrlParts {
                host: u.host_str().map(|h| h.to_string()),
                segments: u.path_segments().map(|p| p.map(|s| s.to_string()).collect()),
            },
        ),
        Err(_) => None,
    }
}

/// Why a text is no address of a place in a GitHub repository.
#[derive(Debug, Clone, Copy, PartialEq, Eq, Structural)]
pub enum InvalidUrl {
    /// The text is no absolute URL.
    Malformed,
    /// The host is not `github.com`.
    NotGitHub,
    /// The URL has no path that can be cut into segments.
    NoPath,
    /// The path has fewer than two segments.
    MissingRepository,
}

impl InvalidUrl {
    /// The reason in words, as a mathematical value.
    pub open spec fn message_text(self) -> Seq<char> {
        match self {
            InvalidUrl::Malformed => "Invalid URL format"@,
            InvalidUrl::NotGitHub => "Not a GitHub URL"@,
            InvalidUrl::NoPath => "Invalid URL path"@,
            InvalidUrl::MissingRepository => "URL must contain owner and repository"@,
        }
    }

    /// The reason in words.
    pub fn message(&self) -> (r: String)
        ensures
            r@ == self.message_text(),
    {
        match self {
            InvalidUrl::Malformed => "Invalid URL format".to_owned(),
            InvalidUrl::NotGitHub => "Not a GitHub URL".to_owned(),
            InvalidUrl::NoPath => "Invalid URL path".to_owned(),
            InvalidUrl::MissingRepository => "URL must contain owner and repository".to_owned(),
        }
    }
}

/// A place in a repository, as a mathematical value.
pub ghost struct GitHubRef {
    pub owner: Seq<char>,
    pub repo: Seq<char>,
    pub branch: Seq<char>,
    pub path: Seq<char>,
}

/// A place in a repository: its owner, its name, a branch, and a path below
/// the root (empty at the root).
#[derive(Debug)]
pub struct GitHubUrl {
    pub owner: String,
    pub repo: String,
    pub branch: String,
    pub path: String,
}

impl View for GitHubUrl {
    type V = GitHubRef;

    open spec fn view(&self) -> GitHubRef {
        GitHubRef { owner: self.owner@, repo: self.repo@, branch: self.branch@, path: self.path@ }
    }
}

impl Clone for GitHubUrl {
    fn clone(&self) -> (r: GitHubUrl)
        ensures
            r@ == self@,
    {
        GitHubUrl {
            owner: self.owner.clone(),
            repo: self.repo.clone(),
            branch: self.branch.clone(),
            path: self.path.clone(),
        }
    }
}

/// The segments joined by `'/'`.
pub open spec fn join_path(segments: Seq<Seq<char>>) -> Seq<char>
    decreases segments.len(),
{
    if segments.len() == 0 {
        Seq::empty()
    } else if segments.len() == 1 {
        segments[0]
    } else {
        join_path(segments.drop_last()) + seq!['/'] + segments.last()
    }
}

/// The path names a branch: its third segment is `tree` and a fourth follows.
pub open spec fn names_branch(segments: Seq<Seq<char>>) -> bool {
    segments.len() >= 4 && segments[2] == "tree"@
}

/// The place that a host and the segments of a path address.
pub open spec fn resolve(host: Option<Seq<char>>, segments: Option<Seq<Seq<char>>>) -> Result<
    GitHubRef,
    InvalidUrl,
> {
    if host != Some("github.com"@) {
        Err(InvalidUrl::NotGitHub)
    } else {
        match segments {
            None => Err(InvalidUrl::NoPath),
            Some(segs) => if segs.len() < 2 {
                Err(InvalidUrl::MissingRepository)
            } else if names_branch(segs) {
                Ok(
                    GitHubRef {
                        owner: segs[0],
                        repo: segs[1],
                        branch: segs[3],
                        path: join_path(segs.skip(4)),
                    },
                )
            } else {
                Ok(
                    GitHubRef {
                        owner: segs[0],
                        repo: segs[1],
                        branch: "main"@,
                        path: Seq::empty(),
                    },
                )
            },
        }
    }
}

/// The place that the text `input` addresses.
pub open spec fn parse_spec(input: Seq<char>) -> Result<GitHubRef, InvalidUrl> {
    match url_parts(input) {
        None => Err(InvalidUrl::Malformed),
        Some((host, segments)) => resolve(host, segments),
    }
}

/// The view of what `parse` returns.
pub open spec fn outcome_view(r: Result<GitHubUrl, InvalidUrl>) -> Result<GitHubRef, InvalidUrl> {
    match r {
        Ok(u) => Ok(u@),
        Err(e) => Err(e),
    }
}

/// The contents endpoint that lists the place `r`.
pub open spec fn api_url_of(r: GitHubRef) -> Seq<char> {
    "https://api.github.com/repos/"@ + r.owner + "/"@ + r.repo + "/contents"@ + (if r.path.len()
        == 0 {
        Seq::empty()
    } else {
        "/"@ + r.path
    }) + "?ref="@ + r.branch
}

/// A host and path that name no branch address the root of the repository
/// on `main`: the first segment is the owner, the second the repository.
pub proof fn lemma_default_branch_of_parts(host: Option<Seq<char>>, segments: Seq<Seq<char>>)
    requires
        resolve(host, Some(segments)) is Ok,
        !names_branch(segments),
    ensures
        resolve(host, Some(segments)) == Ok::<GitHubRef, InvalidUrl>(
            GitHubRef {
                owner: segments[0],
                repo: segments[1],
                branch: "main"@,
                path: Seq::empty(),
            },
        ),
{
}

/// Another host than `github.com`, or a path of fewer than two segments,
/// is rejected.
pub proof fn lemma_rejected_parts(host: Option<Seq<char>>, segments: Option<Seq<Seq<char>>>)
    requires
        host != Some("github.com"@) || (segments matches Some(s) && s.len() < 2),
    ensures
        resolve(host, segments) is Err,
{
}

/// The endpoint of a place at the root of a repository is the address of
/// the repository's contents followed at once by the branch asked for: no
/// path stands between.
pub proof fn lemma_root_endpoint(r: GitHubRef)
    requires
        r.path.len() == 0,
    ensures
        api_url_of(r) == "https://api.github.com/repos/"@ + r.owner + "/"@ + r.repo
            + "/contents"@ + "?ref="@ + r.branch,
        r.branch == "main"@ ==> api_url_of(r) == "https://api.github.com/repos/"@ + r.owner
            + "/"@ + r.repo + "/contents"@ + "?ref=main"@,
{
    let base = "https://api.github.com/repos/"@ + r.owner + "/"@ + r.repo + "/contents"@;
    assert(base + Seq::<char>::empty() =~= base);
    reveal_strlit("?ref=");
    reveal_strlit("main");
    reveal_strlit("?ref=main");
    assert("?ref="@ + "main"@ =~= "?ref=main"@);
    assert(base + "?ref="@ + "main"@ =~= base + ("?ref="@ + "main"@));
}

/// The endpoint of a place at the root of a repository holds exactly one
/// `'?'`, the one before the branch, where owner, repository and branch
/// hold none.
pub proof fn lemma_root_endpoint_one_query(r: GitHubRef)
    requires
        r.path.len() == 0,
        count_of(r.owner, '?') == 0,
        count_of(r.repo, '?') == 0,
        count_of(r.branch, '?') == 0,
    ensures
        count_of(api_url_of(r), '?') == 1,
{
    lemma_root_endpoint(r);
    reveal_strlit("https://api.github.com/repos/");
    reveal_strlit("/");
    reveal_strlit("/contents");
    reveal_strlit("?ref=");
    let a = "https://api.github.com/repos/"@;
    let b = "/"@;
    let c = "/contents"@;
    let d = "?ref="@;
    lemma_count_none(a, '?');
    lemma_count_none(b, '?');
    lemma_count_none(c, '?');
    assert(count_of(d, '?') == 1) by {
        reveal_with_fuel(count_of, 6);
    }
    lemma_count_joined(a, r.owner, '?');
    lemma_count_joined(a + r.owner, b, '?');
    lemma_count_joined(a + r.owner + b, r.repo, '?');
    lemma_count_joined(a + r.owner + b + r.repo, c, '?');
    lemma_count_joined(a + r.owner + b + r.repo + c, d, '?');
    lemma_count_joined(a + r.owner + b + r.repo + c + d, r.branch, '?');
}

/// The branch `main` holds no `'?'`.
pub proof fn lemma_main_has_no_query()
    ensures
        count_of("main"@, '?') == 0,
{
    reveal_strlit("main");
    lemma_count_none("main"@, '?');
}

/// An address whose path names no branch is on `main`, at the root of the
/// repository.
pub proof fn lemma_default_branch(input: Seq<char>)
    requires
        parse_spec(input) is Ok,
        url_parts(input) matches Some((_, Some(segments))) && !names_branch(segments),
    ensures
        parse_spec(input) matches Ok(r) && r.branch == "main"@ && r.path == Seq::<char>::empty(),
{
}

/// An address on another host than `github.com`, or with a path of fewer
/// than two segments, is rejected; so is any text that is no absolute URL.
pub proof fn lemma_rejected(input: Seq<char>)
    requires
        match url_parts(input) {
            None => true,
            Some((host, segments)) => host != Some("github.com"@) || (segments matches Some(s)
                && s.len() < 2),
        },
    ensures
        parse_spec(input) is Err,
{
}

/// The endpoint for an address that names no branch has no path after
/// `contents` and ends in `?ref=main`.
pub proof fn lemma_root_api_url(input: Seq<char>)
    requires
        parse_spec(input) is Ok,
        url_parts(input) matches Some((_, Some(segments))) && !names_branch(segments),
    ensures
        parse_spec(input) matches Ok(r) && api_url_of(r) == "https://api.github.com/repos/"@
            + r.owner + "/"@ + r.repo + "/contents"@ + "?ref=main"@,
{
    lemma_root_endpoint(parse_spec(input)->Ok_0);
}

/// Joins the strings of `segments` from index `from` on with `'/'`.
pub fn join_from(segments: &Vec<String>, from: usize) -> (r: String)
    requires
        from <= segments@.len(),
    ensures
        r@ == join_path(views_of(segments@).skip(from as int)),
{
    let ghost all = views_of(segments@).skip(from as int);
    let mut out = String::new();
    let mut i: usize = from;
    proof {
        reveal_strlit("/");
        assert(all.take(0) =~= Seq::<Seq<char>>::empty());
    }
    while i < segments.len()
        invariant
            from <= i <= segments@.len(),
            all == views_of(segments@).skip(from as int),
            out@ == join_path(all.take(i - from)),
            "/"@ == seq!['/'],
        decreases segments@.len() - i,
    {
        proof {
            let k = i - from;
            assert(all.take(k + 1).drop_last() =~= all.take(k));
            assert(all.take(k + 1).last() == segments@[i as int]@);
            if k == 0 {
                assert(out@ + segments@[i as int]@ =~= segments@[i as int]@);
            }
        }
        if i > from {
            out.append("/");
        }
        out.append(segments[i].as_str());
        i += 1;
    }
    proof {
        assert(all.take(segments@.len() - from) =~= all);
    }
    out
}

impl GitHubUrl {
    /// The place that a URL's host and path segments address.
    pub fn from_parts(parts: &UrlParts) -> (r: Result<GitHubUrl, InvalidUrl>)
        ensures
            outcome_view(r) == resolve(parts@.0, parts@.1),
    {
        let on_github = match &parts.host {
            Some(h) => str_eq(h.as_str(), "github.com"),
            None => false,
        };
        if !on_github {
            return Err(InvalidUrl::NotGitHub);
        }
        let segments = match &parts.segments {
            Some(v) => v,
            None => {
                return Err(InvalidUrl::NoPath);
            },
        };
        if segments.len() < 2 {
            return Err(InvalidUrl::MissingRepository);
        }
        let owner = segments[0].clone();
        let repo = segments[1].clone();
        if segments.len() >= 4 && str_eq(segments[2].as_str(), "tree") {
            let branch = segments[3].clone();
            let path = join_from(segments, 4);
            Ok(GitHubUrl { owner, repo, branch, path })
        } else {
            Ok(GitHubUrl { owner, repo, branch: "main".to_owned(), path: String::new() })
        }
    }

    /// Reads a GitHub web address: `https://github.com/{owner}/{repo}`,
    /// optionally followed by `/tree/{branch}` and a path.
    pub fn parse(url_str: &str) -> (r: Result<GitHubUrl, InvalidUrl>)
        ensures
            outcome_view(r) == parse_spec(url_str@),
    {
        match split_url(url_str) {
            Some(parts) => GitHubUrl::from_parts(&parts),
            None => Err(InvalidUrl::Malformed),
        }
    }

    /// The contents endpoint that lists this place.
    pub fn api_url(&self) -> (r: String)
        ensures
            r@ == api_url_of(self@),
    {
        let mut out = "https://api.github.com/repos/".to_owned();
        out.append(self.owner.as_str());
        out.append("/");
        out.append(self.repo.as_str());
        out.append("/contents");
        if !self.path.as_str().is_empty() {
            out.append("/");
            out.append(self.path.as_str());
            proof {
                let base = "https://api.github.com/repos/"@ + self.owner@ + "/"@ + self.repo@
                    + "/contents"@;
                assert(base + "/"@ + self.path@ =~= base + ("/"@ + self.path@));
            }
        } else {
            proof {
                let base = "https://api.github.com/repos/"@ + self.owner@ + "/"@ + self.repo@
                    + "/contents"@;
                assert(base + Seq::<char>::empty() =~= base);
            }
        }
        out.append("?ref=");
        out.append(self.branch.as_str());
        out
    }
}

} // verus!
