use ferrisync::scanner::{classify, join_rel, normalize_rel_path, rel_segments, FileAction, FileMeta};
use ferrisync::state_store::{FileRecord, FileStatus};

fn meta(path: &str, size: u64, mtime: i64) -> FileMeta {
    FileMeta {
        relative_path: path.into(),
        absolute_path: path.into(),
        size,
        mtime,
    }
}

fn record(size: i64, mtime: i64, status: FileStatus) -> FileRecord {
    FileRecord {
        pair_id: "p".into(),
        path: "f.bin".into(),
        size,
        mtime,
        source_hash: None,
        dest_hash: None,
        synced_at: Some(1),
        verified_at: Some(1),
        deleted_at: None,
        status,
    }
}

#[test]
fn classify_new_when_no_dest() {
    let src = meta("a.bin", 10, 1);
    assert_eq!(classify(&src, None, None), FileAction::New);
}

#[test]
fn classify_missing_on_dest_when_state_exists() {
    let src = meta("a.bin", 10, 1);
    let state = record(10, 1, FileStatus::Verified);
    assert_eq!(classify(&src, None, Some(&state)), FileAction::MissingOnDest);
}

#[test]
fn classify_unchanged_when_size_mtime_and_state_match() {
    let src = meta("a.bin", 10, 5);
    let dest = meta("a.bin", 10, 5);
    let state = record(10, 5, FileStatus::Verified);
    assert_eq!(classify(&src, Some(&dest), Some(&state)), FileAction::Unchanged);
}

#[test]
fn classify_updated_when_mtime_changes() {
    let src = meta("a.bin", 10, 9);
    let dest = meta("a.bin", 10, 5);
    let state = record(10, 5, FileStatus::Verified);
    assert_eq!(classify(&src, Some(&dest), Some(&state)), FileAction::Updated);
}

#[test]
fn classify_without_state_compares_size_and_mtime() {
    let src = meta("a.bin", 10, 5);
    assert_eq!(classify(&src, Some(&meta("a.bin", 10, 5)), None), FileAction::Unchanged);
    assert_eq!(classify(&src, Some(&meta("a.bin", 11, 5)), None), FileAction::Updated);
}

#[test]
fn classify_unchanged_for_any_status_when_everything_matches() {
    let src = meta("a.bin", 10, 5);
    let dest = meta("a.bin", 10, 5);
    let state = record(10, 5, FileStatus::Error);
    assert_eq!(classify(&src, Some(&dest), Some(&state)), FileAction::Unchanged);
}

#[test]
fn classify_updated_when_record_differs() {
    let src = meta("a.bin", 10, 5);
    let dest = meta("a.bin", 10, 5);
    let state = record(9, 5, FileStatus::Verified);
    assert_eq!(classify(&src, Some(&dest), Some(&state)), FileAction::Updated);
}

#[test]
fn rel_segments_drop_empty_dot_and_parent() {
    let parts = rel_segments("a//./b/../c/");
    assert_eq!(parts, vec!["a".to_string(), "b".to_string(), "c".to_string()]);
    assert!(rel_segments("").is_empty());
    assert!(rel_segments("../..").is_empty());
}

#[test]
fn join_rel_stays_below_root() {
    let joined = join_rel("root", "../x/./y");
    assert!(joined.starts_with("root"));
    assert!(joined.ends_with("y"));
    assert!(!joined.contains(".."));
    assert_eq!(join_rel("root", ""), "root");
}

#[test]
fn normalize_uses_forward_slashes() {
    assert_eq!(normalize_rel_path("sub/x.txt"), "sub/x.txt");
    assert_eq!(normalize_rel_path("a"), "a");
}

#[test]
fn normalize_drops_repeated_and_trailing_separators_and_dots() {
    assert_eq!(normalize_rel_path("a//b"), "a/b");
    assert_eq!(normalize_rel_path("a/./b"), "a/b");
    assert_eq!(normalize_rel_path("a/b/"), "a/b");
    assert_eq!(normalize_rel_path("./a"), "./a");
    assert_eq!(normalize_rel_path("a/../b"), "a/../b");
    assert_eq!(normalize_rel_path(""), "");
}

#[test]
fn join_rel_puts_every_segment_below_the_root() {
    assert_eq!(join_rel("/q", "../a//./b.bin"), "/q/a/b.bin");
    assert_eq!(join_rel("root/", "x/y"), "root/x/y");
    assert_eq!(join_rel("", "a/b"), "a/b");
    assert_eq!(join_rel("r", &normalize_rel_path("a//b/./c")), "r/a/b/c");
}

#[test]
fn normalize_reads_backslash_as_the_platform_does() {
    let r = normalize_rel_path("sub\\x.txt");
    assert!(r == "sub/x.txt" || r == "sub\\x.txt");
    assert_eq!(normalize_rel_path("sub/x.txt"), "sub/x.txt");
}
