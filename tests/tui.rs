use tap::tui::{safe_truncate_path, Mode};

#[test]
fn mode_labels() {
    assert_eq!(Mode::Inspect.as_str(), "INSPECT");
    assert_eq!(Mode::Export.as_str(), "EXPORT");
}

#[test]
fn short_paths_are_kept() {
    assert_eq!(safe_truncate_path("/a/b", 3), "/a/b");
    assert_eq!(safe_truncate_path("/a/b", 10), "/a/b");
}

#[test]
fn long_paths_keep_head_and_tail() {
    let p: String = (0..100).map(|i| char::from(b'a' + (i % 26) as u8)).collect();
    let r = safe_truncate_path(&p, 50);
    let expected = format!("{}...{}", &p[..30], &p[68..]);
    assert_eq!(r, expected);
    assert_eq!(r.chars().count(), 65);
}

#[test]
fn truncation_respects_characters() {
    let p: String = std::iter::repeat('é').take(70).collect();
    let r = safe_truncate_path(&p, 10);
    assert_eq!(r.chars().count(), 65);
    assert!(r.starts_with("éé"));
    assert!(r.contains("..."));
}
