use ferrisync::config::RetentionConfig;
use ferrisync::jobs::{
    cleanup_retention, cleanup_skip_notice, count_status_sample, folders_ready, live_cleanup_allowed,
    purge_retention, push_capped, session_problem, trim_text, FolderSession, STATUS_SAMPLE_CAP,
};
use ferrisync::state_store::{FileRecord, FileStatus};

fn rec(status: FileStatus) -> FileRecord {
    FileRecord {
        pair_id: "p".into(),
        path: "f".into(),
        size: 1,
        mtime: 1,
        source_hash: None,
        dest_hash: None,
        synced_at: None,
        verified_at: None,
        deleted_at: None,
        status,
    }
}

#[test]
fn trim_strips_surrounding_white_space() {
    assert_eq!(trim_text("  D:/src \t\n"), "D:/src");
    assert_eq!(trim_text("   "), "");
    assert_eq!(trim_text("a b"), "a b");
    assert_eq!(trim_text("\u{3000}x\u{00a0}"), "x");
}

#[test]
fn sessions_need_both_folders() {
    assert!(folders_ready(" a ", "b"));
    assert!(!folders_ready("  ", "b"));
    let s = FolderSession::from_inputs(" src ", "");
    assert_eq!(s.source, "src");
    assert_eq!(session_problem(&s).as_deref(), Some("choose a destination folder first"));
    let s = FolderSession::from_inputs("", "dst");
    assert_eq!(session_problem(&s).as_deref(), Some("choose a source folder first"));
    assert_eq!(session_problem(&FolderSession::from_inputs("a", "b")), None);
}

#[test]
fn job_retention_overrides() {
    let r = cleanup_retention(RetentionConfig { dry_run: false, ..RetentionConfig::default() }, true, false);
    assert!(r.enabled);
    assert!(!r.dry_run);
    let r = cleanup_retention(RetentionConfig { dry_run: false, ..RetentionConfig::default() }, false, true);
    assert!(!r.enabled);
    assert!(r.dry_run);
    let r = purge_retention(RetentionConfig { dry_run: false, ..RetentionConfig::default() }, true);
    assert!(r.dry_run);
}

#[test]
fn status_sample_counts() {
    let states = vec![Some(rec(FileStatus::Verified)), None, Some(rec(FileStatus::Error)), Some(rec(FileStatus::Verified))];
    assert_eq!(count_status_sample(&states), (2, 1, 1));
    assert_eq!(STATUS_SAMPLE_CAP, 5000);
}

#[test]
fn capped_log_keeps_newest() {
    let mut v: Vec<u32> = vec![1, 2, 3];
    push_capped(&mut v, 4, 3);
    assert_eq!(v, vec![2, 3, 4]);
    push_capped(&mut v, 5, 5);
    assert_eq!(v, vec![2, 3, 4, 5]);
    let mut w: Vec<u32> = vec![1, 2, 3, 4, 5];
    push_capped(&mut w, 6, 2);
    assert_eq!(w, vec![5, 6]);
}

#[test]
fn live_cleanup_needs_every_condition() {
    assert!(live_cleanup_allowed(false, true, true, true));
    assert!(!live_cleanup_allowed(true, true, true, true));
    assert!(!live_cleanup_allowed(false, false, true, true));
    assert!(!live_cleanup_allowed(false, true, false, true));
    assert!(!live_cleanup_allowed(false, true, true, false));
}

#[test]
fn disabled_retention_skips_cleanup_with_notice() {
    let off = RetentionConfig { enabled: false, ..RetentionConfig::default() };
    assert_eq!(
        cleanup_skip_notice(&off).as_deref(),
        Some("CLEANUP skipped: retention.enabled=false (enable Force retention in GUI)")
    );
    let on = RetentionConfig { enabled: true, ..RetentionConfig::default() };
    assert_eq!(cleanup_skip_notice(&on), None);
}
