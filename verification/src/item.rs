//! One row of a directory listing, with what Git-LFS resolution adds to it.

use vstd::prelude::*;
use vstd::string::*;
use crate::text::{opt_view, str_eq};

verus! {

/// A listing row as a mathematical value.
pub ghost struct TreeEntry {
    pub name: Seq<char>,
    pub item_type: Seq<char>,
    pub path: Seq<char>,
    pub download_url: Option<Seq<char>>,
    pub url: Seq<char>,
    pub size: Option<u64>,
    pub selected: bool,
    pub lfs_oid: Option<Seq<char>>,
    pub lfs_size: Option<u64>,
    pub lfs_download_url: Option<Seq<char>>,
}

impl TreeEntry {
    /// The row is a directory.
    pub open spec fn is_dir(self) -> bool {
        self.item_type == "dir"@
    }

    /// The row is a file.
    pub open spec fn is_file(self) -> bool {
        self.item_type == "file"@
    }

    /// The size to show and expect: the resolved one where there is one.
    pub open spec fn effective_size(self) -> Option<u64> {
        if self.lfs_size is Some {
            self.lfs_size
        } else {
            self.size
        }
    }

    /// The address to download from: the resolved one where there is one.
    pub open spec fn effective_url(self) -> Option<Seq<char>> {
        if self.lfs_download_url is Some {
            self.lfs_download_url
        } else {
            self.download_url
        }
    }

    /// The row with every field that resolution never touches: all but the
    /// three `lfs_` fields.
    pub open spec fn without_lfs(self) -> TreeEntry {
        TreeEntry { lfs_oid: None, lfs_size: None, lfs_download_url: None, ..self }
    }

    /// Resolution has recorded nothing on the row.
    pub open spec fn is_unresolved(self) -> bool {
        self.lfs_oid is None && self.lfs_size is None && self.lfs_download_url is None
    }

    /// Resolution has recorded on the row all it records of a pointer.
    pub open spec fn is_resolved(self) -> bool {
        self.lfs_oid is Some && self.lfs_size is Some && self.lfs_download_url is Some
    }

    /// The row as a listing gives it: with the six listed fields, not
    /// selected, and with nothing recorded by resolution.
    pub open spec fn fresh(
        name: Seq<char>,
        item_type: Seq<char>,
        path: Seq<char>,
        download_url: Option<Seq<char>>,
        url: Seq<char>,
        size: Option<u64>,
    ) -> TreeEntry {
        TreeEntry {
            name,
            item_type,
            path,
            download_url,
            url,
            size,
            selected: false,
            lfs_oid: None,
            lfs_size: None,
            lfs_download_url: None,
        }
    }
}

/// A row with a resolved size reports that size, whatever the listing gave;
/// a row without one reports the listed size. The same holds of the
/// download address.
pub proof fn lemma_effective_values(e: TreeEntry)
    ensures
        e.lfs_size is Some ==> e.effective_size() == e.lfs_size,
        e.lfs_size is None ==> e.effective_size() == e.size,
        e.lfs_download_url is Some ==> e.effective_url() == e.lfs_download_url,
        e.lfs_download_url is None ==> e.effective_url() == e.download_url,
{
}

/// One row of a listing: a file or a directory of the repository.
#[derive(Debug, PartialEq)]
pub struct RepoItem {
    pub name: String,
    pub item_type: String,
    pub path: String,
    pub download_url: Option<String>,
    pub url: String,
    pub size: Option<u64>,
    pub selected: bool,
    pub lfs_oid: Option<String>,
    pub lfs_size: Option<u64>,
    pub lfs_download_url: Option<String>,
}

impl View for RepoItem {
    type V = TreeEntry;

    open spec fn view(&self) -> TreeEntry {
        TreeEntry {
            name: self.name@,
            item_type: self.item_type@,
            path: self.path@,
            download_url: opt_view(self.download_url),
            url: self.url@,
            size: self.size,
            selected: self.selected,
            lfs_oid: opt_view(self.lfs_oid),
            lfs_size: self.lfs_size,
            lfs_download_url: opt_view(self.lfs_download_url),
        }
    }
}

/// A copy of an optional string.
pub fn copy_opt(o: &Option<String>) -> (r: Option<String>)
    ensures
        opt_view(r) == opt_view(*o),
{
    match o {
        Some(s) => Some(s.clone()),
        None => None,
    }
}

impl Clone for RepoItem {
    fn clone(&self) -> (r: RepoItem)
        ensures
            r@ == self@,
    {
        RepoItem {
            name: self.name.clone(),
            item_type: self.item_type.clone(),
            path: self.path.clone(),
            download_url: copy_opt(&self.download_url),
            url: self.url.clone(),
            size: self.size,
            selected: self.selected,
            lfs_oid: copy_opt(&self.lfs_oid),
            lfs_size: self.lfs_size,
            lfs_download_url: copy_opt(&self.lfs_download_url),
        }
    }
}

impl RepoItem {
    /// A row as a listing gives it: not selected, and with nothing recorded
    /// by resolution.
    pub fn listed(
        name: String,
        item_type: String,
        path: String,
        download_url: Option<String>,
        url: String,
        size: Option<u64>,
    ) -> (r: RepoItem)
        ensures
            r@ == TreeEntry::fresh(
                name@,
                item_type@,
                path@,
                opt_view(download_url),
                url@,
                size,
            ),
            !r@.selected,
            r@.is_unresolved(),
    {
        RepoItem {
            name,
            item_type,
            path,
            download_url,
            url,
            size,
            selected: false,
            lfs_oid: None,
            lfs_size: None,
            lfs_download_url: None,
        }
    }

    /// Whether the row is a directory.
    pub fn is_dir(&self) -> (r: bool)
        ensures
            r == self@.is_dir(),
    {
        str_eq(self.item_type.as_str(), "dir")
    }

    /// Whether the row is a file.
    pub fn is_file(&self) -> (r: bool)
        ensures
            r == self@.is_file(),
    {
        str_eq(self.item_type.as_str(), "file")
    }

    /// Whether the row was found to be a Git-LFS pointer.
    pub fn is_lfs(&self) -> (r: bool)
        ensures
            r == (self@.lfs_oid is Some),
    {
        self.lfs_oid.is_some()
    }

    /// The size of the content: that of the LFS object where the row is a
    /// pointer, else the listed one.
    pub fn actual_size(&self) -> (r: Option<u64>)
        ensures
            r == self@.effective_size(),
    {
        match self.lfs_size {
            Some(n) => Some(n),
            None => self.size,
        }
    }

    /// The address of the content: the resolved LFS address where there is
    /// one, else the listed one.
    pub fn actual_download_url(&self) -> (r: Option<&String>)
        ensures
            match r {
                Some(s) => self@.effective_url() == Some(s@),
                None => self@.effective_url() is None,
            },
    {
        match &self.lfs_download_url {
            Some(s) => Some(s),
            None => self.download_url.as_ref(),
        }
    }
}

/// The views of a list of rows.
pub open spec fn entries_of(v: Seq<RepoItem>) -> Seq<TreeEntry> {
    Seq::new(v.len(), |i: int| v[i]@)
}

} // verus!
