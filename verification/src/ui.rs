//! The state of the browser: the listing on screen, the cursor in it, the
//! rows marked for download, and the way back up.

use vstd::prelude::*;
use crate::github::GitHubUrl;
use crate::item::{entries_of, RepoItem, TreeEntry};
use crate::toast::{Toast, ToastType, TOAST_SECONDS};

verus! {

/// How many rows of the listing are on screen at once.
pub const VISIBLE_ROWS: usize = 10;

/// What the keyboard is for.
#[derive(Debug, Clone, Copy, PartialEq, Eq, Structural)]
pub enum AppMode {
    /// Typing an address.
    Input,
    /// Moving through a listing.
    Browse,
}

/// The state of the browser.
pub struct AppState {
    pub mode: AppMode,
    pub url_input: String,
    pub current_url: Option<GitHubUrl>,
    pub items: Vec<RepoItem>,
    pub cursor: usize,
    pub scroll_offset: usize,
    pub status_message: String,
    pub downloading: bool,
    pub navigation_stack: Vec<(GitHubUrl, usize)>,
    pub frame_count: u64,
    pub toast: Option<Toast>,
}

/// What the listing view draws from.
pub struct BrowserState<'a> {
    pub items: &'a [RepoItem],
    pub current_url: Option<&'a GitHubUrl>,
    pub cursor: usize,
    pub scroll_offset: usize,
    pub status_msg: &'a str,
    pub is_downloading: bool,
}

/// The first row on screen once the cursor is brought into view: the
/// cursor itself where it was above the screen, the row that puts the
/// cursor last on screen where it was below, else the row as before.
pub open spec fn scrolled(cursor: usize, offset: usize) -> usize {
    if cursor < offset {
        cursor
    } else if cursor - offset >= VISIBLE_ROWS {
        (cursor - VISIBLE_ROWS + 1) as usize
    } else {
        offset
    }
}

/// The rows marked as selected, in listing order.
pub open spec fn selected_entries(entries: Seq<TreeEntry>) -> Seq<TreeEntry>
    decreases entries.len(),
{
    if entries.len() == 0 {
        Seq::empty()
    } else if entries.last().selected {
        selected_entries(entries.drop_last()).push(entries.last())
    } else {
        selected_entries(entries.drop_last())
    }
}

impl AppState {
    /// The listing on screen, as mathematical values.
    pub open spec fn entries(&self) -> Seq<TreeEntry> {
        entries_of(self.items@)
    }

    /// The state with another cursor and first row, all else the same.
    pub open spec fn moved_to(self, cursor: usize) -> AppState {
        AppState { cursor, scroll_offset: scrolled(cursor, self.scroll_offset), ..self }
    }

    /// The state at start: typing an address, with nothing loaded.
    pub fn new() -> (r: AppState)
        ensures
            r.mode == AppMode::Input,
            r.url_input@.len() == 0,
            r.current_url is None,
            r.items@.len() == 0,
            r.cursor == 0,
            r.scroll_offset == 0,
            r.status_message@.len() == 0,
            !r.downloading,
            r.navigation_stack@.len() == 0,
            r.frame_count == 0,
            r.toast is None,
    {
        AppState {
            mode: AppMode::Input,
            url_input: String::new(),
            current_url: None,
            items: Vec::new(),
            cursor: 0,
            scroll_offset: 0,
            status_message: String::new(),
            downloading: false,
            navigation_stack: Vec::new(),
            frame_count: 0,
            toast: None,
        }
    }

    /// Puts up a notice in place of any other.
    pub fn show_toast(&mut self, message: String, type_: ToastType)
        ensures
            final(self).toast matches Some(t) && t.message == message && t.toast_type == type_
                && t.duration_secs == TOAST_SECONDS,
            *final(self) == (AppState { toast: final(self).toast, ..*old(self) }),
    {
        self.toast = Some(Toast::new(message, type_));
    }

    /// Brings the cursor into view.
    pub fn adjust_scroll(&mut self)
        ensures
            *final(self) == old(self).moved_to(old(self).cursor),
            final(self).scroll_offset <= final(self).cursor,
            final(self).cursor - final(self).scroll_offset < VISIBLE_ROWS,
    {
        if self.cursor < self.scroll_offset {
            self.scroll_offset = self.cursor;
        } else if self.cursor - self.scroll_offset >= VISIBLE_ROWS {
            self.scroll_offset = self.cursor - VISIBLE_ROWS + 1;
        }
    }

    /// Moves the cursor one row up, unless it is on the first.
    pub fn move_up(&mut self)
        ensures
            *final(self) == old(self).moved_to(
                if old(self).cursor > 0 {
                    (old(self).cursor - 1) as usize
                } else {
                    old(self).cursor
                },
            ),
            final(self).scroll_offset <= final(self).cursor,
            final(self).cursor - final(self).scroll_offset < VISIBLE_ROWS,
    {
        if self.cursor > 0 {
            self.cursor -= 1;
        }
        self.adjust_scroll();
    }

    /// Moves the cursor one row down, unless it is on the last or beyond.
    pub fn move_down(&mut self)
        ensures
            *final(self) == old(self).moved_to(
                if old(self).cursor + 1 < old(self).items@.len() {
                    (old(self).cursor + 1) as usize
                } else {
                    old(self).cursor
                },
            ),
            final(self).scroll_offset <= final(self).cursor,
            final(self).cursor - final(self).scroll_offset < VISIBLE_ROWS,
    {
        let n = self.items.len();
        if n > 0 && self.cursor < n - 1 {
            self.cursor += 1;
        }
        self.adjust_scroll();
    }

    /// Moves the cursor to the first row.
    pub fn move_top(&mut self)
        ensures
            *final(self) == old(self).moved_to(0),
            final(self).cursor == 0,
            final(self).scroll_offset == 0,
    {
        self.cursor = 0;
        self.adjust_scroll();
    }

    /// Moves the cursor to the last row, if there is any row.
    pub fn move_bottom(&mut self)
        ensures
            *final(self) == old(self).moved_to(
                if old(self).items@.len() > 0 {
                    (old(self).items@.len() - 1) as usize
                } else {
                    old(self).cursor
                },
            ),
            final(self).scroll_offset <= final(self).cursor,
            final(self).cursor - final(self).scroll_offset < VISIBLE_ROWS,
    {
        if self.items.len() > 0 {
            self.cursor = self.items.len() - 1;
        }
        self.adjust_scroll();
    }

    /// Marks every row as selected, or none.
    pub fn loop_selection(&mut self, select: bool)
        ensures
            final(self).items@.len() == old(self).items@.len(),
            forall|i: int|
                0 <= i < old(self).items@.len() ==> #[trigger] final(self).entries()[i] == (
                TreeEntry { selected: select, ..old(self).entries()[i] }),
            *final(self) == (AppState { items: final(self).items, ..*old(self) }),
    {
        let n = self.items.len();
        let mut i: usize = 0;
        while i < n
            invariant
                i <= n,
                n == old(self).items@.len(),
                self.items@.len() == n,
                *self == (AppState { items: self.items, ..*old(self) }),
                forall|k: int|
                    0 <= k < i ==> #[trigger] self.items@[k]@ == (TreeEntry {
                        selected: select,
                        ..old(self).items@[k]@
                    }),
                forall|k: int| i <= k < n ==> #[trigger] self.items@[k] == old(self).items@[k],
            decreases n - i,
        {
            self.items[i].selected = select;
            i += 1;
        }
    }

    /// Flips the mark of the row under the cursor, if the cursor is on one.
    pub fn toggle_selection(&mut self)
        ensures
            final(self).items@.len() == old(self).items@.len(),
            final(self).entries() == if old(self).cursor < old(self).items@.len() {
                old(self).entries().update(
                    old(self).cursor as int,
                    TreeEntry {
                        selected: !old(self).entries()[old(self).cursor as int].selected,
                        ..old(self).entries()[old(self).cursor as int]
                    },
                )
            } else {
                old(self).entries()
            },
            *final(self) == (AppState { items: final(self).items, ..*old(self) }),
    {
        let i = self.cursor;
        if i < self.items.len() {
            self.items[i].selected = !self.items[i].selected;
        }
    }

    /// Copies of the rows marked as selected, in listing order.
    pub fn get_selected_items(&self) -> (r: Vec<RepoItem>)
        ensures
            entries_of(r@) == selected_entries(self.entries()),
    {
        let mut out: Vec<RepoItem> = Vec::new();
        let ghost all = self.entries();
        let mut i: usize = 0;
        while i < self.items.len()
            invariant
                i <= self.items@.len(),
                all == entries_of(self.items@),
                entries_of(out@) == selected_entries(all.take(i as int)),
            decreases self.items@.len() - i,
        {
            proof {
                assert(all.take(i + 1).drop_last() =~= all.take(i as int));
                assert(all.take(i + 1).last() == self.items@[i as int]@);
            }
            if self.items[i].selected {
                let ghost before = entries_of(out@);
                out.push(self.items[i].clone());
                proof {
                    assert(entries_of(out@) =~= before.push(self.items@[i as int]@));
                }
            }
            i += 1;
        }
        proof {
            assert(all.take(self.items@.len() as int) =~= all);
        }
        out
    }

    /// What the listing view draws from.
    pub fn browser_state(&self) -> (r: BrowserState<'_>)
        ensures
            r.items@ == self.items@,
            r.cursor == self.cursor,
            r.scroll_offset == self.scroll_offset,
            r.status_msg@ == self.status_message@,
            r.is_downloading == self.downloading,
            match r.current_url {
                Some(u) => self.current_url == Some(*u),
                None => self.current_url is None,
            },
    {
        BrowserState {
            items: self.items.as_slice(),
            current_url: self.current_url.as_ref(),
            cursor: self.cursor,
            scroll_offset: self.scroll_offset,
            status_msg: self.status_message.as_str(),
            is_downloading: self.downloading,
        }
    }
}

} // verus!
