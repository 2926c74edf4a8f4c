//! Finding the Git-LFS pointers among the rows of a listing.
//!
//! The resolver makes no request itself. Each step takes the answer to the
//! request it asked for last and says what to ask for next; whoever drives
//! it performs the requests. A request that fails is answered with `None`,
//! and never stops the walk.

use vstd::prelude::*;
use vstd::string::*;
use crate::batch::{batch_url, batch_url_of, media_url, media_url_of, LfsBatchRequest};
use crate::item::{entries_of, RepoItem, TreeEntry};
use crate::lfs::{pointer_of, LfsPointer};
use crate::text::opt_view;

verus! {

/// Files at least this large are taken to be real content and never probed.
pub const POINTER_SIZE_LIMIT: u64 = 1024;

/// What the resolver waits for.
#[derive(Debug, Clone, Copy, PartialEq, Eq, Structural)]
pub enum Waiting {
    /// Nothing: the walk has not begun, or is over.
    Nothing,
    /// The raw body of the row at `index`.
    Body,
    /// The download address of the object that the row at `index` points to.
    Link,
}

/// The resolver's place in the listing.
#[derive(Debug, Clone, Copy, PartialEq, Eq, Structural)]
pub struct LfsResolver {
    pub index: usize,
    pub waiting: Waiting,
}

/// The request that the resolver asks for.
#[derive(Debug)]
pub enum LfsAction {
    /// Fetch the text at `url`.
    FetchBody { url: String },
    /// Post `request` to the batch API at `batch_url`.
    RequestLink { batch_url: String, request: LfsBatchRequest },
    /// Every row has been looked at.
    Finished,
}

/// The row is worth a probe: a file with a listed size under the limit and
/// a listed download address.
pub open spec fn wants_probe(e: TreeEntry) -> bool {
    &&& e.is_file()
    &&& e.size matches Some(n) && n < POINTER_SIZE_LIMIT
    &&& e.download_url is Some
}

/// The first row at or after `from` that is worth a probe, or the length of
/// the listing.
pub open spec fn next_probe(entries: Seq<TreeEntry>, from: int) -> int
    decreases entries.len() - from,
{
    if from >= entries.len() {
        entries.len() as int
    } else if from >= 0 && wants_probe(entries[from]) {
        from
    } else {
        next_probe(entries, from + 1)
    }
}

/// Whether the row is worth a probe.
pub fn worth_probe(item: &RepoItem) -> (r: bool)
    ensures
        r == wants_probe(item@),
{
    let small = match item.size {
        Some(n) => n < POINTER_SIZE_LIMIT,
        None => false,
    };
    small && item.download_url.is_some() && item.is_file()
}

/// Whether resolution has recorded nothing on the row.
pub fn unresolved(item: &RepoItem) -> (r: bool)
    ensures
        r == item@.is_unresolved(),
{
    item.lfs_oid.is_none() && item.lfs_size.is_none() && item.lfs_download_url.is_none()
}

/// No row of the listing has anything recorded by resolution, as is so of
/// every listing that was just fetched.
pub open spec fn all_unresolved(entries: Seq<TreeEntry>) -> bool {
    forall|j: int| 0 <= j < entries.len() ==> (#[trigger] entries[j]).is_unresolved()
}

/// The row after the answer to the request made for it.
pub open spec fn absorbed(
    e: TreeEntry,
    waiting: Waiting,
    answer: Option<Seq<char>>,
    owner: Seq<char>,
    repo: Seq<char>,
) -> TreeEntry {
    match waiting {
        Waiting::Nothing => e,
        Waiting::Body => match answer {
            Some(text) => match pointer_of(text) {
                Some((oid, size)) => TreeEntry { lfs_oid: Some(oid), lfs_size: Some(size), ..e },
                None => e,
            },
            None => e,
        },
        Waiting::Link => TreeEntry {
            lfs_download_url: Some(
                match answer {
                    Some(href) => href,
                    None => media_url_of(owner, repo, e.path),
                },
            ),
            ..e
        },
    }
}

/// The answer is the body of a pointer file, so that a download address is
/// asked for next.
pub open spec fn found_pointer(waiting: Waiting, answer: Option<Seq<char>>) -> bool {
    &&& waiting == Waiting::Body
    &&& answer matches Some(text)
    &&& pointer_of(text) is Some
}

/// The request asks to download the object that the pointer `p` names.
pub open spec fn asks_for_pointer(request: LfsBatchRequest, p: Option<(Seq<char>, u64)>) -> bool {
    p matches Some((oid, size)) && request.asks_for(oid, size)
}

impl LfsResolver {
    /// The resolver waits for an answer about a row of a listing of `len` rows.
    pub open spec fn busy(self, len: nat) -> bool {
        self.waiting != Waiting::Nothing && self.index < len
    }

    /// The resolver is at a place that a walk over `entries` from a fresh
    /// listing can reach. It waits only about a row that is worth a probe:
    /// for a body before anything is recorded on the row, for a link once
    /// name and size are. Rows behind it are either untouched or fully
    /// resolved, and only rows worth a probe are resolved. Rows ahead of it
    /// are untouched.
    pub open spec fn ready(self, entries: Seq<TreeEntry>) -> bool {
        &&& self.index <= entries.len()
        &&& match self.waiting {
            Waiting::Nothing => self.index < entries.len() ==> entries[self.index as int].is_unresolved(),
            Waiting::Body => {
                &&& self.index < entries.len()
                &&& wants_probe(entries[self.index as int])
                &&& entries[self.index as int].is_unresolved()
            },
            Waiting::Link => {
                &&& self.index < entries.len()
                &&& wants_probe(entries[self.index as int])
                &&& entries[self.index as int].lfs_oid is Some
                &&& entries[self.index as int].lfs_size is Some
                &&& entries[self.index as int].lfs_download_url is None
            },
        }
        &&& forall|j: int|
            self.index < j < entries.len() ==> (#[trigger] entries[j]).is_unresolved()
        &&& forall|j: int|
            0 <= j < self.index ==> (#[trigger] entries[j]).is_unresolved() || (
            entries[j].is_resolved() && wants_probe(entries[j]))
    }

    /// A bound on the requests still to come: it falls with every step that
    /// asks for one.
    pub open spec fn remaining(self, len: nat) -> int {
        if self.index >= len {
            0
        } else {
            3 * (len - self.index) + match self.waiting {
                Waiting::Nothing => 2int,
                Waiting::Body => 1int,
                Waiting::Link => 0int,
            }
        }
    }

    /// A resolver at the start of a listing. It is ready for every listing
    /// on which resolution has recorded nothing yet.
    pub fn new() -> (r: LfsResolver)
        ensures
            r == (LfsResolver { index: 0, waiting: Waiting::Nothing }),
            forall|entries: Seq<TreeEntry>|
                all_unresolved(entries) ==> #[trigger] r.ready(entries),
    {
        LfsResolver { index: 0, waiting: Waiting::Nothing }
    }

    /// Whether the resolver is at a place that a walk over `items` can
    /// reach.
    pub fn is_ready(&self, items: &Vec<RepoItem>) -> (r: bool)
        ensures
            r == self.ready(entries_of(items@)),
    {
        let n = items.len();
        let i = self.index;
        if i > n {
            return false;
        }
        let ghost entries = entries_of(items@);
        let here = match self.waiting {
            Waiting::Nothing => i >= n || unresolved(&items[i]),
            Waiting::Body => i < n && worth_probe(&items[i]) && unresolved(&items[i]),
            Waiting::Link => i < n && worth_probe(&items[i]) && items[i].lfs_oid.is_some()
                && items[i].lfs_size.is_some() && items[i].lfs_download_url.is_none(),
        };
        if !here {
            return false;
        }
        let mut j: usize = 0;
        while j < n
            invariant
                j <= n,
                i <= n,
                i == self.index,
                n == items@.len(),
                entries == entries_of(items@),
                forall|k: int|
                    0 <= k < j && k < i ==> (#[trigger] entries[k]).is_unresolved() || (
                    entries[k].is_resolved() && wants_probe(entries[k])),
                forall|k: int| i < k < j ==> (#[trigger] entries[k]).is_unresolved(),
            decreases n - j,
        {
            let row = &items[j];
            if j < i {
                let whole = row.lfs_oid.is_some() && row.lfs_size.is_some()
                    && row.lfs_download_url.is_some();
                if !(unresolved(row) || (whole && worth_probe(row))) {
                    assert(!(entries[j as int].is_unresolved() || (entries[j as int].is_resolved()
                        && wants_probe(entries[j as int]))));
                    return false;
                }
            } else if j > i {
                if !unresolved(row) {
                    assert(!entries[j as int].is_unresolved());
                    return false;
                }
            }
            j += 1;
        }
        true
    }

    /// Moves to the first row at or after `from` that is worth a probe.
    fn seek(&mut self, items: &Vec<RepoItem>, from: usize) -> (action: LfsAction)
        requires
            from <= items@.len(),
        ensures
            final(self).index == next_probe(entries_of(items@), from as int),
            from <= final(self).index <= items@.len(),
            match action {
                LfsAction::FetchBody { url } => {
                    &&& final(self).index < items@.len()
                    &&& final(self).waiting == Waiting::Body
                    &&& wants_probe(items@[final(self).index as int]@)
                    &&& items@[final(self).index as int]@.download_url == Some(url@)
                },
                LfsAction::RequestLink { .. } => false,
                LfsAction::Finished => {
                    &&& final(self).index == items@.len()
                    &&& final(self).waiting == Waiting::Nothing
                },
            },
    {
        let mut k: usize = from;
        while k < items.len()
            invariant
                from <= k <= items@.len(),
                next_probe(entries_of(items@), k as int) == next_probe(
                    entries_of(items@),
                    from as int,
                ),
            decreases items@.len() - k,
        {
            let item = &items[k];
            if worth_probe(item) {
                if let Some(url) = &item.download_url {
                    self.index = k;
                    self.waiting = Waiting::Body;
                    return LfsAction::FetchBody { url: url.clone() };
                }
            }
            k += 1;
        }
        self.index = k;
        self.waiting = Waiting::Nothing;
        LfsAction::Finished
    }

    /// Takes the answer to the request asked for last and says what to ask
    /// for next. `answer` is the body fetched or the download address found,
    /// or `None` where the request failed; the first step takes any `answer`.
    ///
    /// Only the row that the answer is about can change, and of it only the
    /// three `lfs_` fields; a row that is not worth a probe never changes.
    /// A pointer's name and size are recorded first; its download address
    /// is the one the batch API gave, or else the media address.
    ///
    /// The resolver must be `ready` for `items`, as it is from `new` on a
    /// fresh listing and after every step; `is_ready` tests it.
    pub fn step(
        &mut self,
        items: &mut Vec<RepoItem>,
        owner: &str,
        repo: &str,
        answer: Option<String>,
    ) -> (action: LfsAction)
        requires
            old(self).ready(entries_of(old(items)@)),
        ensures
            final(self).ready(entries_of(final(items)@)),
            final(items)@.len() == old(items)@.len(),
            entries_of(final(items)@) == if old(self).busy(old(items)@.len()) {
                entries_of(old(items)@).update(
                    old(self).index as int,
                    absorbed(
                        old(items)@[old(self).index as int]@,
                        old(self).waiting,
                        opt_view(answer),
                        owner@,
                        repo@,
                    ),
                )
            } else {
                entries_of(old(items)@)
            },
            forall|i: int|
                0 <= i < old(items)@.len() ==> (#[trigger] final(items)@[i])@.without_lfs() == old(
                    items,
                )@[i]@.without_lfs(),
            forall|i: int|
                0 <= i < old(items)@.len() && !wants_probe(old(items)@[i]@) ==> (
                #[trigger] final(items)@[i])@ == old(items)@[i]@,
            if old(self).busy(old(items)@.len()) && found_pointer(
                old(self).waiting,
                opt_view(answer),
            ) {
                &&& *final(self) == (LfsResolver { index: old(self).index, waiting: Waiting::Link })
                &&& action matches LfsAction::RequestLink { batch_url, request }
                &&& batch_url@ == batch_url_of(owner@, repo@)
                &&& asks_for_pointer(request, pointer_of(answer->0@))
            } else {
                let from = if old(self).busy(old(items)@.len()) {
                    old(self).index + 1
                } else {
                    old(self).index as int
                };
                let k = next_probe(entries_of(old(items)@), from);
                &&& final(self).index == k
                &&& if k < old(items)@.len() {
                    &&& final(self).waiting == Waiting::Body
                    &&& action matches LfsAction::FetchBody { url }
                    &&& old(items)@[k]@.download_url == Some(url@)
                } else {
                    &&& final(self).waiting == Waiting::Nothing
                    &&& action is Finished
                }
            },
            action !is Finished ==> final(self).remaining(final(items)@.len()) < old(
                self,
            ).remaining(old(items)@.len()),
    {
        let n = items.len();
        let i = self.index;
        let ghost before = entries_of(items@);
        if i >= n {
            proof {
                assert(entries_of(items@) =~= before);
            }
            return self.seek(items, n);
        }
        match self.waiting {
            Waiting::Nothing => self.seek(items, i),
            Waiting::Body => {
                let pointer = match &answer {
                    Some(text) => LfsPointer::parse(text.as_str()),
                    None => None,
                };
                match pointer {
                    Some(p) => {
                        let request = LfsBatchRequest::download(p.oid.as_str(), p.size);
                        items[i].lfs_size = Some(p.size);
                        items[i].lfs_oid = Some(p.oid);
                        self.waiting = Waiting::Link;
                        proof {
                            assert(entries_of(items@) =~= before.update(i as int, items@[i as int]@));
                        }
                        LfsAction::RequestLink { batch_url: batch_url(owner, repo), request }
                    },
                    None => {
                        proof {
                            assert(before.update(i as int, before[i as int]) =~= before);
                            lemma_probe_unchanged(before, before, i + 1);
                        }
                        self.seek(items, i + 1)
                    },
                }
            },
            Waiting::Link => {
                let link = match answer {
                    Some(href) => href,
                    None => media_url(owner, repo, items[i].path.as_str()),
                };
                items[i].lfs_download_url = Some(link);
                proof {
                    let after = entries_of(items@);
                    assert(after =~= before.update(i as int, items@[i as int]@));
                    assert forall|j: int| 0 <= j < after.len() implies wants_probe(after[j])
                        == wants_probe(before[j]) && after[j].download_url
                        == before[j].download_url by {}
                    lemma_probe_unchanged(before, after, i + 1);
                }
                self.seek(items, i + 1)
            },
        }
    }
}

/// Where to probe next depends only on what the listing gave.
pub proof fn lemma_probe_unchanged(a: Seq<TreeEntry>, b: Seq<TreeEntry>, from: int)
    requires
        a.len() == b.len(),
        forall|j: int| 0 <= j < a.len() ==> wants_probe(a[j]) == wants_probe(b[j]),
    ensures
        next_probe(a, from) == next_probe(b, from),
    decreases a.len() - from,
{
    if from < a.len() {
        lemma_probe_unchanged(a, b, from + 1);
    }
}

} // verus!
