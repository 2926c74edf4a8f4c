//! How the browser answers a key press, and how it takes in the result of
//! the request that the key press led to.
//!
//! The browser makes no request itself: a key press yields a `Command`, and
//! whoever runs the requests reports back with one of the `*_result`
//! functions.

use vstd::prelude::*;
use vstd::string::*;
use crate::fetch::{decimal_text, fallback_after, fallback_of, write_decimal, FetchError};
use crate::github::{GitHubRef, GitHubUrl, InvalidUrl};
use crate::item::{RepoItem, TreeEntry};
use crate::keys::{intent_of, read_key, Intent, Key};
use crate::toast::ToastType;
use crate::ui::{selected_entries, AppMode, AppState};

verus! {

/// `String::push` appends the character to the end of the string.
pub assume_specification[ String::push ](s: &mut String, c: char)
    ensures
        final(s)@ == old(s)@.push(c),
;

/// `String::pop` removes the last character and returns it, or returns
/// `None` and leaves the string as it is where the string is empty.
pub assume_specification[ String::pop ](s: &mut String) -> (r: Option<char>)
    ensures
        old(s)@.len() == 0 ==> r is None && final(s)@ == old(s)@,
        old(s)@.len() > 0 ==> r == Some(old(s)@.last()) && final(s)@ == old(s)@.drop_last(),
;

/// What is to be done outside the browser after a key press.
#[derive(Debug)]
pub enum Command {
    /// Nothing.
    Idle,
    /// Leave the program.
    Quit,
    /// Read the address and fetch its listing.
    Load { address: String },
    /// Fetch the listing of `url`, the place left earlier with the cursor
    /// on row `cursor`.
    Back { url: GitHubUrl, cursor: usize },
    /// Fetch the listing of `url`, a directory of the present listing.
    Open { url: GitHubUrl },
    /// Download the rows marked.
    Download,
}

/// The path of the row `name` of the directory at `path`.
pub open spec fn child_path(path: Seq<char>, name: Seq<char>) -> Seq<char> {
    if path.len() == 0 {
        name
    } else {
        path + "/"@ + name
    }
}

/// The views of the places left on the way down, each with the row the
/// cursor was on.
pub open spec fn trail_of(v: Seq<(GitHubUrl, usize)>) -> Seq<(GitHubRef, usize)> {
    Seq::new(v.len(), |i: int| (v[i].0@, v[i].1))
}

/// The line that reports a failure, after `prefix`.
pub fn error_line(prefix: &str, error: FetchError) -> (r: String)
    ensures
        r@ == prefix@ + error.message_text(),
{
    let mut out = prefix.to_owned();
    let text = error.message();
    out.append(text.as_str());
    out
}

impl AppState {
    /// The cursor is on a directory that can be opened.
    pub open spec fn can_open(&self) -> bool {
        &&& self.cursor < self.items@.len()
        &&& self.items@[self.cursor as int]@.is_dir()
        &&& self.current_url is Some
    }

    /// Answers a key press.
    pub fn handle_key(&mut self, key: Key, ctrl: bool) -> (command: Command)
        ensures
            final(self).applied(*old(self), intent_of(old(self).mode, key, ctrl), command),
    {
        let intent = read_key(self.mode, key, ctrl);
        self.apply(intent)
    }

    /// `self` and `command` are what `before` and `intent` lead to.
    pub open spec fn applied(&self, before: AppState, intent: Intent, command: Command) -> bool {
        match intent {
            Intent::Quit => *self == before && command is Quit,
            Intent::Ignore => *self == before && command is Idle,
            Intent::Type(c) => {
                &&& self.url_input@ == before.url_input@.push(c)
                &&& *self == (AppState { url_input: self.url_input, ..before })
                &&& command is Idle
            },
            Intent::Erase => {
                &&& self.url_input@ == if before.url_input@.len() > 0 {
                    before.url_input@.drop_last()
                } else {
                    before.url_input@
                }
                &&& *self == (AppState { url_input: self.url_input, ..before })
                &&& command is Idle
            },
            Intent::Submit => {
                &&& self.status_message@ == "Fetching..."@
                &&& *self == (AppState { status_message: self.status_message, ..before })
                &&& command matches Command::Load { address }
                &&& address@ == before.url_input@
            },
            Intent::Up => {
                &&& *self == before.moved_to(
                    if before.cursor > 0 {
                        (before.cursor - 1) as usize
                    } else {
                        before.cursor
                    },
                )
                &&& command is Idle
            },
            Intent::Down => {
                &&& *self == before.moved_to(
                    if before.cursor + 1 < before.items@.len() {
                        (before.cursor + 1) as usize
                    } else {
                        before.cursor
                    },
                )
                &&& command is Idle
            },
            Intent::Top => *self == before.moved_to(0) && command is Idle,
            Intent::Bottom => {
                &&& *self == before.moved_to(
                    if before.items@.len() > 0 {
                        (before.items@.len() - 1) as usize
                    } else {
                        before.cursor
                    },
                )
                &&& command is Idle
            },
            Intent::Toggle => {
                &&& *self == (AppState { items: self.items, ..before })
                &&& self.entries() == if before.cursor < before.items@.len() {
                    before.entries().update(
                        before.cursor as int,
                        TreeEntry {
                            selected: !before.entries()[before.cursor as int].selected,
                            ..before.entries()[before.cursor as int]
                        },
                    )
                } else {
                    before.entries()
                }
                &&& command is Idle
            },
            Intent::SelectAll => self.marked_all(before, true) && command is Idle,
            Intent::SelectNone => self.marked_all(before, false) && command is Idle,
            Intent::Back => if before.navigation_stack@.len() > 0 {
                &&& self.navigation_stack@ == before.navigation_stack@.drop_last()
                &&& self.status_message@ == "Heading back..."@
                &&& *self == (AppState {
                    navigation_stack: self.navigation_stack,
                    status_message: self.status_message,
                    ..before
                })
                &&& command matches Command::Back { url, cursor }
                &&& (url, cursor) == before.navigation_stack@.last()
            } else {
                &&& *self == (AppState { mode: AppMode::Input, ..before })
                &&& command is Idle
            },
            Intent::Open => if before.can_open() {
                let here = before.current_url->0@;
                let row = before.items@[before.cursor as int]@;
                &&& trail_of(self.navigation_stack@) == trail_of(before.navigation_stack@).push(
                    (here, before.cursor),
                )
                &&& *self == (AppState { navigation_stack: self.navigation_stack, ..before })
                &&& command matches Command::Open { url }
                &&& url@ == (GitHubRef { path: child_path(here.path, row.name), ..here })
            } else {
                *self == before && command is Idle
            },
            Intent::Download => if before.downloading {
                *self == before && command is Idle
            } else if selected_entries(before.entries()).len() == 0 {
                &&& self.toast matches Some(t)
                &&& t.message@ == "No items selected!"@
                &&& t.toast_type == ToastType::Info
                &&& *self == (AppState { toast: self.toast, ..before })
                &&& command is Idle
            } else {
                &&& *self == (AppState { downloading: true, ..before })
                &&& command is Download
            },
        }
    }

    /// Every row of `self` is marked as `select` says, and nothing else
    /// differs from `before`.
    pub open spec fn marked_all(&self, before: AppState, select: bool) -> bool {
        &&& self.items@.len() == before.items@.len()
        &&& forall|i: int|
            0 <= i < before.items@.len() ==> #[trigger] self.entries()[i] == (
            TreeEntry { selected: select, ..before.entries()[i] })
        &&& *self == (AppState { items: self.items, ..before })
    }

    /// Carries out what the user asked for, as far as the browser itself
    /// can, and says what is left to do outside it.
    pub fn apply(&mut self, intent: Intent) -> (command: Command)
        ensures
            final(self).applied(*old(self), intent, command),
    {
        match intent {
            Intent::Quit => Command::Quit,
            Intent::Ignore => Command::Idle,
            Intent::Type(c) => {
                self.url_input.push(c);
                Command::Idle
            },
            Intent::Erase => {
                self.url_input.pop();
                Command::Idle
            },
            Intent::Submit => {
                self.status_message = "Fetching...".to_owned();
                Command::Load { address: self.url_input.clone() }
            },
            Intent::Up => {
                self.move_up();
                Command::Idle
            },
            Intent::Down => {
                self.move_down();
                Command::Idle
            },
            Intent::Top => {
                self.move_top();
                Command::Idle
            },
            Intent::Bottom => {
                self.move_bottom();
                Command::Idle
            },
            Intent::Toggle => {
                self.toggle_selection();
                Command::Idle
            },
            Intent::SelectAll => {
                self.loop_selection(true);
                Command::Idle
            },
            Intent::SelectNone => {
                self.loop_selection(false);
                Command::Idle
            },
            Intent::Back => {
                if self.navigation_stack.len() == 0 {
                    self.mode = AppMode::Input;
                    return Command::Idle;
                }
                match self.navigation_stack.pop() {
                    Some((url, cursor)) => {
                        self.status_message = "Heading back...".to_owned();
                        Command::Back { url, cursor }
                    },
                    None => Command::Idle,
                }
            },
            Intent::Open => {
                let at = self.cursor;
                if at >= self.items.len() || !self.items[at].is_dir() {
                    return Command::Idle;
                }
                let here = match &self.current_url {
                    Some(u) => u.clone(),
                    None => {
                        return Command::Idle;
                    },
                };
                let mut path = here.path.clone();
                if path.as_str().is_empty() {
                    path = self.items[at].name.clone();
                    proof {
                        assert(here@.path + self.items@[at as int]@.name =~= self.items@[at as int]@.name);
                    }
                } else {
                    path.append("/");
                    path.append(self.items[at].name.as_str());
                }
                let url = GitHubUrl {
                    owner: here.owner.clone(),
                    repo: here.repo.clone(),
                    branch: here.branch.clone(),
                    path,
                };
                let ghost trail = trail_of(self.navigation_stack@);
                self.navigation_stack.push((here, at));
                proof {
                    assert(trail_of(self.navigation_stack@) =~= trail.push(
                        (old(self).current_url->0@, at),
                    ));
                }
                Command::Open { url }
            },
            Intent::Download => {
                if self.downloading {
                    return Command::Idle;
                }
                let chosen = self.get_selected_items();
                if chosen.len() == 0 {
                    self.show_toast("No items selected!".to_owned(), ToastType::Info);
                    Command::Idle
                } else {
                    self.downloading = true;
                    Command::Download
                }
            },
        }
    }
}

impl AppState {
    /// `self` shows the notice `text` of kind `kind`, and nothing else
    /// differs from `before`.
    pub open spec fn notified(&self, before: AppState, text: Seq<char>, kind: ToastType) -> bool {
        &&& self.toast matches Some(t)
        &&& t.message@ == text
        &&& t.toast_type == kind
        &&& *self == (AppState { toast: self.toast, ..before })
    }

    /// `self` shows the listing `items` of the place `url` with the cursor
    /// on row `cursor`, the first row on top.
    pub open spec fn shows(
        &self,
        before: AppState,
        url: GitHubUrl,
        items: Vec<RepoItem>,
        cursor: usize,
    ) -> bool {
        *self == (AppState {
            items,
            current_url: Some(url),
            cursor,
            scroll_offset: 0,
            ..before
        })
    }

    /// Says that the rows of a fresh listing are being looked at for
    /// Git-LFS pointers.
    pub fn resolving(&mut self)
        ensures
            final(self).status_message@ == "Resolving LFS files..."@,
            *final(self) == (AppState { status_message: final(self).status_message, ..*old(self) }),
    {
        self.status_message = "Resolving LFS files...".to_owned();
    }

    /// Reports that the address typed is none.
    pub fn load_rejected(&mut self, error: InvalidUrl)
        ensures
            final(self).notified(
                *old(self),
                "Invalid URL: "@ + error.message_text(),
                ToastType::Error,
            ),
    {
        let mut text = "Invalid URL: ".to_owned();
        let reason = error.message();
        text.append(reason.as_str());
        self.show_toast(text, ToastType::Error);
    }

    /// Takes in the listing asked for with `Command::Load`, or its failure.
    /// Where the failure allows a retry on another branch, the place to ask
    /// instead is returned and the state stays as it is.
    pub fn load_result(&mut self, url: GitHubUrl, result: Result<Vec<RepoItem>, FetchError>) -> (retry:
        Option<GitHubUrl>)
        ensures
            match result {
                Ok(items) => {
                    &&& retry is None
                    &&& final(self).toast matches Some(t)
                    &&& t.message@ == "Repository Loaded!"@
                    &&& t.toast_type == ToastType::Success
                    &&& final(self).status_message@ == Seq::<char>::empty()
                    &&& *final(self) == (AppState {
                        items,
                        current_url: Some(url),
                        mode: AppMode::Browse,
                        status_message: final(self).status_message,
                        toast: final(self).toast,
                        ..*old(self)
                    })
                },
                Err(e) => match fallback_of(url@, e) {
                    Some(next) => {
                        &&& retry matches Some(u)
                        &&& u@ == next
                        &&& *final(self) == *old(self)
                    },
                    None => {
                        &&& retry is None
                        &&& final(self).notified(
                            *old(self),
                            "Error: "@ + e.message_text(),
                            ToastType::Error,
                        )
                    },
                },
            },
    {
        match result {
            Ok(items) => {
                self.items = items;
                self.current_url = Some(url);
                self.mode = AppMode::Browse;
                self.status_message = String::new();
                self.show_toast("Repository Loaded!".to_owned(), ToastType::Success);
                None
            },
            Err(e) => {
                let retry = fallback_after(&url, e);
                if retry.is_none() {
                    self.show_toast(error_line("Error: ", e), ToastType::Error);
                }
                retry
            },
        }
    }

    /// Takes in the listing asked for with `Command::Open`, or its failure.
    /// A failure without retry takes back the step onto the trail.
    pub fn open_result(&mut self, url: GitHubUrl, result: Result<Vec<RepoItem>, FetchError>) -> (retry:
        Option<GitHubUrl>)
        ensures
            match result {
                Ok(items) => retry is None && final(self).shows(*old(self), url, items, 0),
                Err(e) => match fallback_of(url@, e) {
                    Some(next) => {
                        &&& retry matches Some(u)
                        &&& u@ == next
                        &&& *final(self) == *old(self)
                    },
                    None => {
                        &&& retry is None
                        &&& final(self).toast matches Some(t)
                        &&& t.message@ == "Nav Error: "@ + e.message_text()
                        &&& t.toast_type == ToastType::Error
                        &&& final(self).navigation_stack@ == if old(self).navigation_stack@.len()
                            > 0 {
                            old(self).navigation_stack@.drop_last()
                        } else {
                            old(self).navigation_stack@
                        }
                        &&& *final(self) == (AppState {
                            toast: final(self).toast,
                            navigation_stack: final(self).navigation_stack,
                            ..*old(self)
                        })
                    },
                },
            },
    {
        match result {
            Ok(items) => {
                self.items = items;
                self.current_url = Some(url);
                self.cursor = 0;
                self.scroll_offset = 0;
                None
            },
            Err(e) => {
                let retry = fallback_after(&url, e);
                if retry.is_none() {
                    self.navigation_stack.pop();
                    self.show_toast(error_line("Nav Error: ", e), ToastType::Error);
                }
                retry
            },
        }
    }

    /// Takes in the listing asked for with `Command::Back`, or its failure.
    pub fn back_result(
        &mut self,
        url: GitHubUrl,
        cursor: usize,
        result: Result<Vec<RepoItem>, FetchError>,
    ) -> (retry: Option<GitHubUrl>)
        ensures
            match result {
                Ok(items) => retry is None && final(self).shows(*old(self), url, items, cursor),
                Err(e) => match fallback_of(url@, e) {
                    Some(next) => {
                        &&& retry matches Some(u)
                        &&& u@ == next
                        &&& *final(self) == *old(self)
                    },
                    None => {
                        &&& retry is None
                        &&& final(self).notified(
                            *old(self),
                            "Nav Error: "@ + e.message_text(),
                            ToastType::Error,
                        )
                    },
                },
            },
    {
        match result {
            Ok(items) => {
                self.items = items;
                self.current_url = Some(url);
                self.cursor = cursor;
                self.scroll_offset = 0;
                None
            },
            Err(e) => {
                let retry = fallback_after(&url, e);
                if retry.is_none() {
                    self.show_toast(error_line("Nav Error: ", e), ToastType::Error);
                }
                retry
            },
        }
    }

    /// Takes in the end of a download that recorded `errors` failures.
    pub fn download_finished(&mut self, errors: usize)
        ensures
            !final(self).downloading,
            final(self).status_message@ == Seq::<char>::empty(),
            final(self).toast matches Some(t) && if errors == 0 {
                t.message@ == "Download Complete!"@ && t.toast_type == ToastType::Success
            } else {
                t.message@ == "Completed with "@ + decimal_text(errors as nat) + " errors"@
                    && t.toast_type == ToastType::Error
            },
            *final(self) == (AppState {
                downloading: false,
                status_message: final(self).status_message,
                toast: final(self).toast,
                ..*old(self)
            }),
    {
        self.downloading = false;
        self.status_message = String::new();
        if errors == 0 {
            self.show_toast("Download Complete!".to_owned(), ToastType::Success);
        } else {
            let mut text = "Completed with ".to_owned();
            let count = write_decimal(errors as u64);
            text.append(count.as_str());
            text.append(" errors");
            self.show_toast(text, ToastType::Error);
        }
    }

    /// Takes in that a download could not even begin.
    pub fn download_failed(&mut self, reason: &str)
        ensures
            !final(self).downloading,
            final(self).status_message@ == Seq::<char>::empty(),
            final(self).toast matches Some(t) && t.message@ == "Download failed: "@ + reason@
                && t.toast_type == ToastType::Error,
            *final(self) == (AppState {
                downloading: false,
                status_message: final(self).status_message,
                toast: final(self).toast,
                ..*old(self)
            }),
    {
        self.downloading = false;
        self.status_message = String::new();
        let mut text = "Download failed: ".to_owned();
        text.append(reason);
        self.show_toast(text, ToastType::Error);
    }

    /// Shows a line of progress.
    pub fn progress(&mut self, message: String)
        ensures
            *final(self) == (AppState { status_message: message, ..*old(self) }),
    {
        self.status_message = message;
    }

    /// Counts one more frame, from the largest count on again from zero, and
    /// takes down a notice that is over.
    pub fn tick(&mut self)
        ensures
            final(self).frame_count == if old(self).frame_count == u64::MAX {
                0
            } else {
                old(self).frame_count + 1
            },
            final(self).toast is None || final(self).toast == old(self).toast,
            *final(self) == (AppState {
                frame_count: final(self).frame_count,
                toast: final(self).toast,
                ..*old(self)
            }),
    {
        self.frame_count = if self.frame_count == u64::MAX {
            0
        } else {
            self.frame_count + 1
        };
        let over = match &self.toast {
            Some(t) => t.is_expired(),
            None => false,
        };
        if over {
            self.toast = None;
        }
    }

    /// Whether the blinking cursor of the address line is on in this frame:
    /// five frames on, five frames off.
    pub fn cursor_visible(&self) -> (r: bool)
        ensures
            r == ((self.frame_count / 5) % 2 == 0),
    {
        (self.frame_count / 5) % 2 == 0
    }
}

} // verus!
