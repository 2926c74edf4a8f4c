use ghgrab::lfs::LfsPointer;

#[test]
fn pointer_with_oid_and_size() {
    let p = LfsPointer::parse(
        "version https://git-lfs.github.com/spec/v1\noid sha256:abc123\nsize 42\n",
    )
    .unwrap();
    assert_eq!(p.oid, "abc123");
    assert_eq!(p.size, 42);
}

#[test]
fn text_without_version_line_is_no_pointer() {
    assert!(LfsPointer::parse("oid sha256:abc123\nsize 42\n").is_none());
    assert!(LfsPointer::parse("").is_none());
    assert!(LfsPointer::parse("hello world").is_none());
}

#[test]
fn pointer_without_size_is_no_pointer() {
    assert!(
        LfsPointer::parse("version https://git-lfs.github.com/spec/v1\noid sha256:abc123\n")
            .is_none()
    );
}

#[test]
fn pointer_without_oid_is_no_pointer() {
    assert!(LfsPointer::parse("version https://git-lfs.github.com/spec/v1\nsize 42\n").is_none());
}

#[test]
fn pointer_lines_in_any_order() {
    let p = LfsPointer::parse(
        "version https://git-lfs.github.com/spec/v1\nsize 7\nother line\noid sha256:ff00",
    )
    .unwrap();
    assert_eq!(p.oid, "ff00");
    assert_eq!(p.size, 7);
}

#[test]
fn pointer_with_crlf_line_ends() {
    let p = LfsPointer::parse(
        "version https://git-lfs.github.com/spec/v1\r\noid sha256:abc\r\nsize 10\r\n",
    )
    .unwrap();
    assert_eq!(p.oid, "abc");
    assert_eq!(p.size, 10);
}

#[test]
fn version_must_be_the_whole_first_line() {
    assert!(LfsPointer::parse(
        "version https://git-lfs.github.com/spec/v10\noid sha256:abc\nsize 10\n"
    )
    .is_none());
    assert!(LfsPointer::parse(
        "\nversion https://git-lfs.github.com/spec/v1\noid sha256:abc\nsize 10\n"
    )
    .is_none());
}

#[test]
fn later_lines_replace_earlier_ones() {
    let p = LfsPointer::parse(
        "version https://git-lfs.github.com/spec/v1\noid sha256:a\nsize 1\noid sha256:b\nsize 2\n",
    )
    .unwrap();
    assert_eq!(p.oid, "b");
    assert_eq!(p.size, 2);
}

#[test]
fn a_later_size_that_is_no_number_leaves_no_size() {
    assert!(LfsPointer::parse(
        "version https://git-lfs.github.com/spec/v1\noid sha256:a\nsize 1\nsize x\n"
    )
    .is_none());
}

#[test]
fn a_repeated_size_prefix_gives_no_pointer() {
    assert!(LfsPointer::parse(
        "version https://git-lfs.github.com/spec/v1\noid sha256:abc123\nsize size 42\n"
    )
    .is_none());
}

#[test]
fn the_name_is_all_that_follows_the_prefix() {
    let p = LfsPointer::parse(
        "version https://git-lfs.github.com/spec/v1\noid sha256:oid sha256:abc\nsize 5\n",
    )
    .unwrap();
    assert_eq!(p.oid, "oid sha256:abc");
    assert_eq!(p.size, 5);
}

#[test]
fn size_forms() {
    let at = |s: &str| {
        LfsPointer::parse(&format!(
            "version https://git-lfs.github.com/spec/v1\noid sha256:a\nsize {}\n",
            s
        ))
        .map(|p| p.size)
    };
    assert_eq!(at("0"), Some(0));
    assert_eq!(at("+17"), Some(17));
    assert_eq!(at("007"), Some(7));
    assert_eq!(at("18446744073709551615"), Some(u64::MAX));
    assert_eq!(at("18446744073709551616"), None);
    assert_eq!(at("99999999999999999999999"), None);
    assert_eq!(at("-1"), None);
    assert_eq!(at("+"), None);
    assert_eq!(at(""), None);
    assert_eq!(at("12 "), None);
    assert_eq!(at("1x"), None);
}

#[test]
fn oid_may_be_empty_or_hold_any_text() {
    let p = LfsPointer::parse("version https://git-lfs.github.com/spec/v1\noid sha256:\nsize 1")
        .unwrap();
    assert_eq!(p.oid, "");
    let p =
        LfsPointer::parse("version https://git-lfs.github.com/spec/v1\noid sha256:é ü\nsize 1")
            .unwrap();
    assert_eq!(p.oid, "é ü");
}
