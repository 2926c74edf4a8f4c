use ghgrab::item::RepoItem;

fn row(name: &str, kind: &str) -> RepoItem {
    RepoItem {
        name: name.to_string(),
        item_type: kind.to_string(),
        path: name.to_string(),
        download_url: Some(format!("https://raw.example/{}", name)),
        url: format!("https://api.example/{}", name),
        size: Some(100),
        selected: false,
        lfs_oid: None,
        lfs_size: None,
        lfs_download_url: None,
    }
}

#[test]
fn kinds_of_rows() {
    let f = row("a.txt", "file");
    assert!(f.is_file());
    assert!(!f.is_dir());
    let d = row("src", "dir");
    assert!(d.is_dir());
    assert!(!d.is_file());
    let other = row("link", "symlink");
    assert!(!other.is_dir());
    assert!(!other.is_file());
    let upper = row("x", "File");
    assert!(!upper.is_file());
}

#[test]
fn effective_size_prefers_the_lfs_size() {
    let mut f = row("big.bin", "file");
    assert_eq!(f.actual_size(), Some(100));
    f.lfs_size = Some(5_000_000);
    assert_eq!(f.actual_size(), Some(5_000_000));
    f.size = None;
    assert_eq!(f.actual_size(), Some(5_000_000));
    f.lfs_size = None;
    assert_eq!(f.actual_size(), None);
}

#[test]
fn effective_url_prefers_the_resolved_url() {
    let mut f = row("big.bin", "file");
    assert_eq!(
        f.actual_download_url(),
        Some(&"https://raw.example/big.bin".to_string())
    );
    f.lfs_download_url = Some("https://lfs.example/obj".to_string());
    assert_eq!(
        f.actual_download_url(),
        Some(&"https://lfs.example/obj".to_string())
    );
    f.download_url = None;
    assert_eq!(
        f.actual_download_url(),
        Some(&"https://lfs.example/obj".to_string())
    );
    f.lfs_download_url = None;
    assert_eq!(f.actual_download_url(), None);
}

#[test]
fn lfs_rows_are_those_with_an_oid() {
    let mut f = row("big.bin", "file");
    assert!(!f.is_lfs());
    f.lfs_oid = Some("abc".to_string());
    assert!(f.is_lfs());
}

#[test]
fn clone_keeps_every_field() {
    let mut f = row("big.bin", "file");
    f.selected = true;
    f.lfs_oid = Some("abc".to_string());
    f.lfs_size = Some(9);
    f.lfs_download_url = Some("u".to_string());
    assert_eq!(f.clone(), f);
}

#[test]
fn a_listed_row_is_unselected_and_unresolved() {
    let r = RepoItem::listed(
        "a.txt".to_string(),
        "file".to_string(),
        "docs/a.txt".to_string(),
        Some("https://raw.example/a.txt".to_string()),
        "https://api.example/a.txt".to_string(),
        Some(12),
    );
    assert_eq!(r.name, "a.txt");
    assert_eq!(r.item_type, "file");
    assert_eq!(r.path, "docs/a.txt");
    assert_eq!(r.download_url, Some("https://raw.example/a.txt".to_string()));
    assert_eq!(r.url, "https://api.example/a.txt");
    assert_eq!(r.size, Some(12));
    assert!(!r.selected);
    assert_eq!(r.lfs_oid, None);
    assert_eq!(r.lfs_size, None);
    assert_eq!(r.lfs_download_url, None);
    let d = RepoItem::listed("d".to_string(), "dir".to_string(), "d".to_string(), None, String::new(), None);
    assert_eq!(d.download_url, None);
    assert_eq!(d.size, None);
    assert!(!d.selected && !d.is_lfs());
}
