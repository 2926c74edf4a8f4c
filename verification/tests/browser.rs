use ghgrab::control::Command;
use ghgrab::fetch::FetchError;
use ghgrab::github::{GitHubUrl, InvalidUrl};
use ghgrab::item::RepoItem;
use ghgrab::keys::{read_key, Intent, Key};
use ghgrab::toast::{Toast, ToastType, TOAST_SECONDS};
use ghgrab::ui::{AppMode, AppState, VISIBLE_ROWS};

fn row(name: &str, kind: &str) -> RepoItem {
    RepoItem {
        name: name.to_string(),
        item_type: kind.to_string(),
        path: name.to_string(),
        download_url: None,
        url: String::new(),
        size: None,
        selected: false,
        lfs_oid: None,
        lfs_size: None,
        lfs_download_url: None,
    }
}

fn place(branch: &str, path: &str) -> GitHubUrl {
    GitHubUrl {
        owner: "o".to_string(),
        repo: "r".to_string(),
        branch: branch.to_string(),
        path: path.to_string(),
    }
}

fn browsing(n: usize) -> AppState {
    let mut s = AppState::new();
    s.mode = AppMode::Browse;
    s.items = (0..n).map(|i| row(&format!("f{}", i), "file")).collect();
    s.current_url = Some(place("main", ""));
    s
}

fn toast_of(s: &AppState) -> (String, ToastType) {
    let t = s.toast.as_ref().expect("a notice");
    (t.message.clone(), t.toast_type)
}

#[test]
fn initial_state() {
    let s = AppState::new();
    assert!(s.mode == AppMode::Input);
    assert_eq!(s.url_input, "");
    assert!(s.current_url.is_none());
    assert!(s.items.is_empty());
    assert_eq!(s.cursor, 0);
    assert_eq!(s.scroll_offset, 0);
    assert_eq!(s.status_message, "");
    assert!(!s.downloading);
    assert!(s.navigation_stack.is_empty());
    assert_eq!(s.frame_count, 0);
    assert!(s.toast.is_none());
}

#[test]
fn toast_lifetime() {
    assert_eq!(TOAST_SECONDS, 4);
    let t = Toast::new("hi".to_string(), ToastType::Info);
    assert_eq!(t.message, "hi");
    assert!(t.toast_type == ToastType::Info);
    assert_eq!(t.duration_secs, 4);
    assert!(!t.expired_after(0));
    assert!(!t.expired_after(3));
    assert!(t.expired_after(4));
    assert!(t.expired_after(100));
    assert!(!t.is_expired());
    let mut gone = t.clone();
    gone.duration_secs = 0;
    assert!(gone.is_expired());
}

#[test]
fn cursor_moves_and_scrolls() {
    assert_eq!(VISIBLE_ROWS, 10);
    let mut s = browsing(25);
    s.move_up();
    assert_eq!((s.cursor, s.scroll_offset), (0, 0));
    for _ in 0..9 {
        s.move_down();
    }
    assert_eq!((s.cursor, s.scroll_offset), (9, 0));
    s.move_down();
    assert_eq!((s.cursor, s.scroll_offset), (10, 1));
    s.move_bottom();
    assert_eq!((s.cursor, s.scroll_offset), (24, 15));
    s.move_down();
    assert_eq!((s.cursor, s.scroll_offset), (24, 15));
    s.move_up();
    assert_eq!((s.cursor, s.scroll_offset), (23, 15));
    s.move_top();
    assert_eq!((s.cursor, s.scroll_offset), (0, 0));
}

#[test]
fn cursor_in_an_empty_listing() {
    let mut s = browsing(0);
    s.move_down();
    assert_eq!(s.cursor, 0);
    s.move_bottom();
    assert_eq!(s.cursor, 0);
    s.toggle_selection();
    assert!(s.get_selected_items().is_empty());
}

#[test]
fn scrolling_never_overflows() {
    let mut s = browsing(3);
    s.scroll_offset = usize::MAX;
    s.cursor = 2;
    s.move_up();
    assert_eq!((s.cursor, s.scroll_offset), (1, 1));
    s.cursor = usize::MAX;
    s.scroll_offset = 0;
    s.move_down();
    assert_eq!(s.cursor, usize::MAX);
    assert_eq!(s.scroll_offset, usize::MAX - 9);
}

#[test]
fn selection() {
    let mut s = browsing(4);
    s.cursor = 2;
    s.toggle_selection();
    let chosen = s.get_selected_items();
    assert_eq!(chosen.len(), 1);
    assert_eq!(chosen[0].name, "f2");
    s.toggle_selection();
    assert!(s.get_selected_items().is_empty());
    s.loop_selection(true);
    let names: Vec<String> = s.get_selected_items().into_iter().map(|i| i.name).collect();
    assert_eq!(names, vec!["f0", "f1", "f2", "f3"]);
    s.cursor = 0;
    s.toggle_selection();
    let names: Vec<String> = s.get_selected_items().into_iter().map(|i| i.name).collect();
    assert_eq!(names, vec!["f1", "f2", "f3"]);
    s.loop_selection(false);
    assert!(s.get_selected_items().is_empty());
    s.cursor = 10;
    s.toggle_selection();
    assert!(s.get_selected_items().is_empty());
}

#[test]
fn keys_in_input_mode() {
    let m = AppMode::Input;
    assert_eq!(read_key(m, Key::Char('q'), false), Intent::Type('q'));
    assert_eq!(read_key(m, Key::Char('c'), false), Intent::Type('c'));
    assert_eq!(read_key(m, Key::Char('c'), true), Intent::Quit);
    assert_eq!(read_key(m, Key::Backspace, false), Intent::Erase);
    assert_eq!(read_key(m, Key::Esc, false), Intent::Quit);
    assert_eq!(read_key(m, Key::Enter, false), Intent::Submit);
    assert_eq!(read_key(m, Key::Up, false), Intent::Ignore);
    assert_eq!(read_key(m, Key::Other, false), Intent::Ignore);
}

#[test]
fn keys_in_browse_mode() {
    let m = AppMode::Browse;
    assert_eq!(read_key(m, Key::Char('c'), true), Intent::Quit);
    assert_eq!(read_key(m, Key::Char('q'), false), Intent::Quit);
    assert_eq!(read_key(m, Key::Char('Q'), false), Intent::Quit);
    assert_eq!(read_key(m, Key::Up, false), Intent::Up);
    assert_eq!(read_key(m, Key::Down, false), Intent::Down);
    assert_eq!(read_key(m, Key::Home, false), Intent::Top);
    assert_eq!(read_key(m, Key::Char('g'), false), Intent::Top);
    assert_eq!(read_key(m, Key::End, false), Intent::Bottom);
    assert_eq!(read_key(m, Key::Char('G'), false), Intent::Bottom);
    assert_eq!(read_key(m, Key::Char(' '), false), Intent::Toggle);
    assert_eq!(read_key(m, Key::Char('a'), false), Intent::SelectAll);
    assert_eq!(read_key(m, Key::Char('u'), false), Intent::SelectNone);
    assert_eq!(read_key(m, Key::Backspace, false), Intent::Back);
    assert_eq!(read_key(m, Key::Left, false), Intent::Back);
    assert_eq!(read_key(m, Key::Char('h'), false), Intent::Back);
    assert_eq!(read_key(m, Key::Enter, false), Intent::Open);
    assert_eq!(read_key(m, Key::Right, false), Intent::Open);
    assert_eq!(read_key(m, Key::Char('l'), false), Intent::Open);
    assert_eq!(read_key(m, Key::Char('d'), false), Intent::Download);
    assert_eq!(read_key(m, Key::Char('D'), false), Intent::Download);
    assert_eq!(read_key(m, Key::Esc, false), Intent::Ignore);
    assert_eq!(read_key(m, Key::Char('x'), false), Intent::Ignore);
}

#[test]
fn typing_an_address() {
    let mut s = AppState::new();
    for c in "ab".chars() {
        assert!(matches!(s.handle_key(Key::Char(c), false), Command::Idle));
    }
    assert_eq!(s.url_input, "ab");
    s.handle_key(Key::Backspace, false);
    assert_eq!(s.url_input, "a");
    s.handle_key(Key::Backspace, false);
    s.handle_key(Key::Backspace, false);
    assert_eq!(s.url_input, "");
    s.handle_key(Key::Char('x'), false);
    match s.handle_key(Key::Enter, false) {
        Command::Load { address } => assert_eq!(address, "x"),
        other => panic!("expected a load, got {:?}", other),
    }
    assert_eq!(s.status_message, "Fetching...");
    assert!(matches!(s.handle_key(Key::Esc, false), Command::Quit));
}

#[test]
fn opening_a_directory_and_going_back() {
    let mut s = browsing(2);
    s.items.push(row("docs", "dir"));
    s.cursor = 2;
    let url = match s.handle_key(Key::Enter, false) {
        Command::Open { url } => url,
        other => panic!("expected an open, got {:?}", other),
    };
    assert_eq!(url.path, "docs");
    assert_eq!(url.branch, "main");
    assert_eq!(s.navigation_stack.len(), 1);
    assert_eq!(s.navigation_stack[0].1, 2);
    assert!(s.open_result(url, Ok(vec![row("guide", "dir")])).is_none());
    assert_eq!(s.current_url.as_ref().unwrap().path, "docs");
    assert_eq!((s.cursor, s.scroll_offset), (0, 0));
    let url = match s.handle_key(Key::Char('l'), false) {
        Command::Open { url } => url,
        other => panic!("expected an open, got {:?}", other),
    };
    assert_eq!(url.path, "docs/guide");
    assert!(s.open_result(url, Err(FetchError::RateLimited)).is_none());
    assert_eq!(s.navigation_stack.len(), 1);
    assert_eq!(
        toast_of(&s),
        (
            "Nav Error: Rate limit exceeded. Please try again later.".to_string(),
            ToastType::Error
        )
    );
    match s.handle_key(Key::Left, false) {
        Command::Back { url, cursor } => {
            assert_eq!(url.path, "");
            assert_eq!(cursor, 2);
            assert_eq!(s.status_message, "Heading back...");
            assert!(s.back_result(url, cursor, Ok(vec![row("a", "file")])).is_none());
        }
        other => panic!("expected a step back, got {:?}", other),
    }
    assert_eq!(s.cursor, 2);
    assert_eq!(s.items.len(), 1);
    assert!(matches!(s.handle_key(Key::Char('h'), false), Command::Idle));
    assert!(s.mode == AppMode::Input);
}

#[test]
fn files_cannot_be_opened() {
    let mut s = browsing(2);
    assert!(matches!(s.handle_key(Key::Enter, false), Command::Idle));
    assert!(s.navigation_stack.is_empty());
    s.items[0].item_type = "dir".to_string();
    s.current_url = None;
    assert!(matches!(s.handle_key(Key::Enter, false), Command::Idle));
    s.cursor = 5;
    assert!(matches!(s.handle_key(Key::Enter, false), Command::Idle));
}

#[test]
fn download_needs_a_selection_and_runs_once() {
    let mut s = browsing(2);
    assert!(matches!(s.handle_key(Key::Char('d'), false), Command::Idle));
    assert_eq!(toast_of(&s), ("No items selected!".to_string(), ToastType::Info));
    assert!(!s.downloading);
    s.handle_key(Key::Char(' '), false);
    assert!(matches!(s.handle_key(Key::Char('D'), false), Command::Download));
    assert!(s.downloading);
    assert!(matches!(s.handle_key(Key::Char('d'), false), Command::Idle));
    s.progress("Downloading: f0".to_string());
    assert_eq!(s.status_message, "Downloading: f0");
    s.download_finished(0);
    assert!(!s.downloading);
    assert_eq!(s.status_message, "");
    assert_eq!(toast_of(&s), ("Download Complete!".to_string(), ToastType::Success));
    s.downloading = true;
    s.download_finished(12);
    assert_eq!(toast_of(&s), ("Completed with 12 errors".to_string(), ToastType::Error));
    s.downloading = true;
    s.download_failed("Could not find User Downloads directory");
    assert!(!s.downloading);
    assert_eq!(
        toast_of(&s),
        (
            "Download failed: Could not find User Downloads directory".to_string(),
            ToastType::Error
        )
    );
}

#[test]
fn loading_a_listing() {
    let mut s = AppState::new();
    s.resolving();
    assert_eq!(s.status_message, "Resolving LFS files...");
    assert!(s.load_result(place("main", ""), Ok(vec![row("a", "file")])).is_none());
    assert!(s.mode == AppMode::Browse);
    assert_eq!(s.items.len(), 1);
    assert_eq!(s.status_message, "");
    assert_eq!(s.current_url.as_ref().unwrap().branch, "main");
    assert_eq!(toast_of(&s), ("Repository Loaded!".to_string(), ToastType::Success));
}

#[test]
fn a_missing_main_is_retried_on_master_exactly_once() {
    let mut s = AppState::new();
    let next = s.load_result(place("main", "x"), Err(FetchError::NotFound)).unwrap();
    assert_eq!(next.branch, "master");
    assert_eq!(next.path, "x");
    assert!(s.toast.is_none());
    assert!(s.mode == AppMode::Input);
    assert!(s.load_result(next, Err(FetchError::NotFound)).is_none());
    assert_eq!(
        toast_of(&s),
        ("Error: Path not found in repository".to_string(), ToastType::Error)
    );
}

#[test]
fn an_explicit_branch_is_not_retried() {
    let mut s = AppState::new();
    assert!(s.load_result(place("dev", ""), Err(FetchError::NotFound)).is_none());
    assert_eq!(
        toast_of(&s),
        ("Error: Path not found in repository".to_string(), ToastType::Error)
    );
    let mut s = AppState::new();
    assert!(s.load_result(place("main", ""), Err(FetchError::ApiError(500))).is_none());
    assert_eq!(toast_of(&s), ("Error: GitHub API error: 500".to_string(), ToastType::Error));
}

#[test]
fn a_rejected_address() {
    let mut s = AppState::new();
    s.load_rejected(InvalidUrl::NotGitHub);
    assert_eq!(
        toast_of(&s),
        ("Invalid URL: Not a GitHub URL".to_string(), ToastType::Error)
    );
}

#[test]
fn frames() {
    let mut s = AppState::new();
    assert!(s.cursor_visible());
    for _ in 0..5 {
        s.tick();
    }
    assert_eq!(s.frame_count, 5);
    assert!(!s.cursor_visible());
    for _ in 0..5 {
        s.tick();
    }
    assert!(s.cursor_visible());
    s.frame_count = u64::MAX;
    s.tick();
    assert_eq!(s.frame_count, 0);
    s.show_toast("x".to_string(), ToastType::Info);
    s.tick();
    assert!(s.toast.is_some());
    s.toast.as_mut().unwrap().duration_secs = 0;
    s.tick();
    assert!(s.toast.is_none());
}

#[test]
fn browser_state_reflects_the_app_state() {
    let mut s = browsing(3);
    s.cursor = 1;
    s.downloading = true;
    s.status_message = "busy".to_string();
    let b = s.browser_state();
    assert_eq!(b.items.len(), 3);
    assert_eq!(b.cursor, 1);
    assert_eq!(b.scroll_offset, 0);
    assert_eq!(b.status_msg, "busy");
    assert!(b.is_downloading);
    assert_eq!(b.current_url.unwrap().owner, "o");
}
