use ghgrab::item::RepoItem;
use ghgrab::resolve::{
    unresolved, worth_probe, LfsAction, LfsResolver, Waiting, POINTER_SIZE_LIMIT,
};

const POINTER: &str = "version https://git-lfs.github.com/spec/v1\noid sha256:abc123\nsize 42\n";

fn row(name: &str, kind: &str, size: Option<u64>, url: bool) -> RepoItem {
    RepoItem {
        name: name.to_string(),
        item_type: kind.to_string(),
        path: format!("dir/{}", name),
        download_url: if url { Some(format!("https://raw.example/{}", name)) } else { None },
        url: format!("https://api.example/{}", name),
        size,
        selected: false,
        lfs_oid: None,
        lfs_size: None,
        lfs_download_url: None,
    }
}

fn fetch_url(a: &LfsAction) -> String {
    match a {
        LfsAction::FetchBody { url } => url.clone(),
        other => panic!("expected a fetch, got {:?}", other),
    }
}

#[test]
fn size_limit_is_1024() {
    assert_eq!(POINTER_SIZE_LIMIT, 1024);
}

#[test]
fn empty_listing_is_finished_at_once() {
    let mut items: Vec<RepoItem> = Vec::new();
    let mut r = LfsResolver::new();
    assert!(matches!(r.step(&mut items, "o", "r", None), LfsAction::Finished));
    assert_eq!(r.waiting, Waiting::Nothing);
}

#[test]
fn only_small_files_with_an_address_are_probed() {
    let mut items = vec![
        row("dir", "dir", Some(10), true),
        row("big", "file", Some(1024), true),
        row("nosize", "file", None, true),
        row("nourl", "file", Some(10), false),
        row("small", "file", Some(1023), true),
    ];
    let before = items.clone();
    let mut r = LfsResolver::new();
    let a = r.step(&mut items, "o", "r", None);
    assert_eq!(fetch_url(&a), "https://raw.example/small");
    assert_eq!(r.index, 4);
    assert_eq!(r.waiting, Waiting::Body);
    let a = r.step(&mut items, "o", "r", Some("just text".to_string()));
    assert!(matches!(a, LfsAction::Finished));
    assert_eq!(items, before);
}

#[test]
fn pointer_is_recorded_and_resolved() {
    let mut items = vec![row("model.bin", "file", Some(130), true)];
    let mut r = LfsResolver::new();
    let a = r.step(&mut items, "octo", "repo", None);
    assert_eq!(fetch_url(&a), "https://raw.example/model.bin");
    let a = r.step(&mut items, "octo", "repo", Some(POINTER.to_string()));
    match a {
        LfsAction::RequestLink { batch_url, request } => {
            assert_eq!(
                batch_url,
                "https://github.com/octo/repo.git/info/lfs/objects/batch"
            );
            assert_eq!(request.operation, "download");
            assert_eq!(request.transfers, vec!["basic".to_string()]);
            assert_eq!(request.objects.len(), 1);
            assert_eq!(request.objects[0].oid, "abc123");
            assert_eq!(request.objects[0].size, 42);
        }
        other => panic!("expected a batch request, got {:?}", other),
    }
    assert_eq!(items[0].lfs_oid, Some("abc123".to_string()));
    assert_eq!(items[0].lfs_size, Some(42));
    assert_eq!(items[0].lfs_download_url, None);
    assert_eq!(r.waiting, Waiting::Link);
    let a = r.step(&mut items, "octo", "repo", Some("https://lfs.example/obj".to_string()));
    assert!(matches!(a, LfsAction::Finished));
    assert_eq!(
        items[0].lfs_download_url,
        Some("https://lfs.example/obj".to_string())
    );
    assert_eq!(items[0].actual_size(), Some(42));
    assert_eq!(items[0].size, Some(130));
    assert_eq!(
        items[0].download_url,
        Some("https://raw.example/model.bin".to_string())
    );
}

#[test]
fn failed_batch_falls_back_to_the_media_address() {
    let mut items = vec![row("model.bin", "file", Some(130), true)];
    let mut r = LfsResolver::new();
    r.step(&mut items, "octo", "repo", None);
    r.step(&mut items, "octo", "repo", Some(POINTER.to_string()));
    let a = r.step(&mut items, "octo", "repo", None);
    assert!(matches!(a, LfsAction::Finished));
    assert_eq!(
        items[0].lfs_download_url,
        Some("https://media.githubusercontent.com/media/octo/repo/master/dir/model.bin".to_string())
    );
}

#[test]
fn a_failed_fetch_leaves_the_row_and_goes_on() {
    let mut items = vec![
        row("a", "file", Some(10), true),
        row("b", "file", Some(10), true),
        row("c", "file", Some(10), true),
    ];
    let mut r = LfsResolver::new();
    let a = r.step(&mut items, "o", "r", None);
    assert_eq!(fetch_url(&a), "https://raw.example/a");
    let a = r.step(&mut items, "o", "r", None);
    assert_eq!(fetch_url(&a), "https://raw.example/b");
    let a = r.step(&mut items, "o", "r", Some(POINTER.to_string()));
    assert!(matches!(a, LfsAction::RequestLink { .. }));
    let a = r.step(&mut items, "o", "r", Some("https://lfs/b".to_string()));
    assert_eq!(fetch_url(&a), "https://raw.example/c");
    let a = r.step(&mut items, "o", "r", Some("no pointer".to_string()));
    assert!(matches!(a, LfsAction::Finished));
    assert!(!items[0].is_lfs());
    assert!(items[1].is_lfs());
    assert!(!items[2].is_lfs());
    assert_eq!(items[0], row("a", "file", Some(10), true));
    assert_eq!(items[2], row("c", "file", Some(10), true));
    assert_eq!(r.index, 3);
    assert!(matches!(r.step(&mut items, "o", "r", None), LfsAction::Finished));
}

#[test]
fn selection_marks_are_never_touched() {
    let mut items = vec![row("a", "file", Some(10), true)];
    items[0].selected = true;
    let mut r = LfsResolver::new();
    r.step(&mut items, "o", "r", None);
    r.step(&mut items, "o", "r", Some(POINTER.to_string()));
    r.step(&mut items, "o", "r", None);
    assert!(items[0].selected);
}

#[test]
fn a_new_resolver_is_ready_for_a_fresh_listing() {
    let items = vec![row("a", "file", Some(10), true), row("d", "dir", None, false)];
    assert!(LfsResolver::new().is_ready(&items));
    assert!(LfsResolver::new().is_ready(&Vec::new()));
}

#[test]
fn readiness_holds_along_a_walk() {
    let mut items = vec![
        row("a", "file", Some(10), true),
        row("b", "file", Some(10), true),
    ];
    let mut r = LfsResolver::new();
    r.step(&mut items, "o", "r", None);
    assert!(r.is_ready(&items));
    r.step(&mut items, "o", "r", Some(POINTER.to_string()));
    assert!(r.is_ready(&items));
    r.step(&mut items, "o", "r", None);
    assert!(r.is_ready(&items));
    r.step(&mut items, "o", "r", None);
    assert!(r.is_ready(&items));
    assert!(items[0].is_lfs());
    assert!(items[0].lfs_size.is_some() && items[0].lfs_download_url.is_some());
    assert!(!items[1].is_lfs());
}

#[test]
fn made_up_states_are_not_ready() {
    let items = vec![row("d", "dir", Some(10), true), row("a", "file", Some(10), true)];
    assert!(!LfsResolver { index: 0, waiting: Waiting::Link }.is_ready(&items));
    assert!(!LfsResolver { index: 0, waiting: Waiting::Body }.is_ready(&items));
    assert!(!LfsResolver { index: 1, waiting: Waiting::Link }.is_ready(&items));
    assert!(LfsResolver { index: 1, waiting: Waiting::Body }.is_ready(&items));
    assert!(!LfsResolver { index: 3, waiting: Waiting::Nothing }.is_ready(&items));
    assert!(!LfsResolver { index: 2, waiting: Waiting::Body }.is_ready(&items));
    let mut half = items.clone();
    half[1].lfs_oid = Some("abc".to_string());
    assert!(!LfsResolver::new().is_ready(&half));
    assert!(!LfsResolver { index: 2, waiting: Waiting::Nothing }.is_ready(&half));
    half[1].lfs_size = Some(1);
    assert!(LfsResolver { index: 1, waiting: Waiting::Link }.is_ready(&half));
    half[1].lfs_download_url = Some("u".to_string());
    assert!(LfsResolver { index: 2, waiting: Waiting::Nothing }.is_ready(&half));
    half[0].lfs_oid = Some("x".to_string());
    half[0].lfs_size = Some(1);
    half[0].lfs_download_url = Some("u".to_string());
    assert!(!LfsResolver { index: 2, waiting: Waiting::Nothing }.is_ready(&half));
}

#[test]
fn probe_worthiness() {
    assert!(worth_probe(&row("a", "file", Some(0), true)));
    assert!(worth_probe(&row("a", "file", Some(1023), true)));
    assert!(!worth_probe(&row("a", "file", Some(1024), true)));
    assert!(!worth_probe(&row("a", "file", None, true)));
    assert!(!worth_probe(&row("a", "file", Some(1), false)));
    assert!(!worth_probe(&row("a", "dir", Some(1), true)));
    let mut r = row("a", "file", Some(1), true);
    assert!(unresolved(&r));
    r.lfs_size = Some(1);
    assert!(!unresolved(&r));
}
