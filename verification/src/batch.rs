//! The Git-LFS batch API: where to ask for an object, what to send, and what
//! to read out of the answer.

use vstd::prelude::*;
use vstd::string::*;
use crate::text::opt_view;

verus! {

/// The batch endpoint of a repository.
pub open spec fn batch_url_of(owner: Seq<char>, repo: Seq<char>) -> Seq<char> {
    "https://github.com/"@ + owner + "/"@ + repo + ".git/info/lfs/objects/batch"@
}

/// The media address tried where the batch API gives none. It always names
/// the branch `master`, whatever branch the listing came from.
pub open spec fn media_url_of(owner: Seq<char>, repo: Seq<char>, path: Seq<char>) -> Seq<char> {
    "https://media.githubusercontent.com/media/"@ + owner + "/"@ + repo + "/master/"@ + path
}

/// The batch endpoint of the repository `owner`/`repo`.
pub fn batch_url(owner: &str, repo: &str) -> (r: String)
    ensures
        r@ == batch_url_of(owner@, repo@),
{
    let mut out = "https://github.com/".to_owned();
    out.append(owner);
    out.append("/");
    out.append(repo);
    out.append(".git/info/lfs/objects/batch");
    out
}

/// The media address of the file at `path` in the repository `owner`/`repo`.
pub fn media_url(owner: &str, repo: &str, path: &str) -> (r: String)
    ensures
        r@ == media_url_of(owner@, repo@, path@),
{
    let mut out = "https://media.githubusercontent.com/media/".to_owned();
    out.append(owner);
    out.append("/");
    out.append(repo);
    out.append("/master/");
    out.append(path);
    out
}

/// The media type that the batch API speaks, for the `Accept` and
/// `Content-Type` headers.
pub fn lfs_media_type() -> (r: &'static str)
    ensures
        r@ == "application/vnd.git-lfs+json"@,
{
    "application/vnd.git-lfs+json"
}

/// One object of a batch request.
#[derive(Debug)]
pub struct LfsObject {
    pub oid: String,
    pub size: u64,
}

/// The body of a batch request.
#[derive(Debug)]
pub struct LfsBatchRequest {
    pub operation: String,
    pub transfers: Vec<String>,
    pub objects: Vec<LfsObject>,
}

impl LfsBatchRequest {
    /// The request asks to download the one object `oid` of `size` bytes over
    /// the basic transfer.
    pub open spec fn asks_for(&self, oid: Seq<char>, size: u64) -> bool {
        &&& self.operation@ == "download"@
        &&& self.transfers@.len() == 1
        &&& self.transfers@[0]@ == "basic"@
        &&& self.objects@.len() == 1
        &&& self.objects@[0].oid@ == oid
        &&& self.objects@[0].size == size
    }

    /// The request to download one object.
    pub fn download(oid: &str, size: u64) -> (r: LfsBatchRequest)
        ensures
            r.asks_for(oid@, size),
    {
        let mut transfers: Vec<String> = Vec::new();
        transfers.push("basic".to_owned());
        let mut objects: Vec<LfsObject> = Vec::new();
        objects.push(LfsObject { oid: oid.to_owned(), size });
        LfsBatchRequest { operation: "download".to_owned(), transfers, objects }
    }
}

/// Where an object can be downloaded.
#[derive(Debug)]
pub struct LfsDownloadAction {
    pub href: String,
}

/// What can be done with an object.
#[derive(Debug)]
pub struct LfsActions {
    pub download: Option<LfsDownloadAction>,
}

/// One object of a batch answer.
#[derive(Debug)]
pub struct LfsResponseObject {
    pub oid: String,
    pub size: u64,
    pub actions: Option<LfsActions>,
}

/// The body of a batch answer.
#[derive(Debug)]
pub struct LfsBatchResponse {
    pub objects: Vec<LfsResponseObject>,
}

impl LfsBatchResponse {
    /// The download address of the first object, if the answer holds one.
    pub open spec fn first_href(&self) -> Option<Seq<char>> {
        if self.objects@.len() == 0 {
            None
        } else {
            match self.objects@[0].actions {
                Some(actions) => match actions.download {
                    Some(action) => Some(action.href@),
                    None => None,
                },
                None => None,
            }
        }
    }

    /// The download address of the first object of the answer.
    pub fn download_href(&self) -> (r: Option<String>)
        ensures
            opt_view(r) == self.first_href(),
    {
        if self.objects.len() == 0 {
            return None;
        }
        match &self.objects[0].actions {
            Some(actions) => match &actions.download {
                Some(action) => Some(action.href.clone()),
                None => None,
            },
            None => None,
        }
    }
}

/// The outcome of a batch request: the download address where the status is
/// a success and the answer, if it could be read, holds one.
pub fn batch_outcome(status: u16, answer: Option<LfsBatchResponse>) -> (r: Option<String>)
    ensures
        opt_view(r) == if 200 <= status < 300 && answer is Some {
            answer->0.first_href()
        } else {
            None
        },
{
    if status < 200 || status >= 300 {
        return None;
    }
    match answer {
        Some(a) => a.download_href(),
        None => None,
    }
}

} // verus!
