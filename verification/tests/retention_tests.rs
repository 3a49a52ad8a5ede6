use ferrisync::config::{RetentionConfig, RetentionMode};
use ferrisync::retention::{
    cleanup_cutoff, cleanup_step, commit_deletion, commit_purge, deletion_target, evaluate_candidate,
    log_retention_skip, purge_audit_reason, purge_cutoff, purge_step, qualifies_by_age, CleanupStats,
    CleanupStep, PurgeStats, PurgeStep, RetentionDecision, RetentionOptions, SourceProbe,
};
use ferrisync::state_store::{FileRecord, FileStatus, StateStore};

fn verified_record(verified_at: i64, size: i64, mtime: i64, hash: &str) -> FileRecord {
    FileRecord {
        pair_id: "p".into(),
        path: "f.bin".into(),
        size,
        mtime,
        source_hash: Some(hash.into()),
        dest_hash: Some(hash.into()),
        synced_at: Some(verified_at),
        verified_at: Some(verified_at),
        deleted_at: None,
        status: FileStatus::Verified,
    }
}

fn reason(d: RetentionDecision) -> String {
    match d {
        RetentionDecision::Skip { reason } => reason,
        RetentionDecision::Qualify => panic!("expected a skip"),
    }
}

#[test]
fn age_boundary_exactly_at_retention_qualifies() {
    let retention_days = 4u32;
    let verified_at = 1_000_000i64;
    let now = verified_at + i64::from(retention_days) * 86_400;
    assert!(qualifies_by_age(verified_at, now, retention_days));
}

#[test]
fn age_one_second_before_boundary_does_not_qualify() {
    let retention_days = 4u32;
    let verified_at = 1_000_000i64;
    let now = verified_at + i64::from(retention_days) * 86_400 - 1;
    assert!(!qualifies_by_age(verified_at, now, retention_days));
}

#[test]
fn dst_transition_dates_use_utc_seconds() {
    let verified_at = 1_773_360_000i64;
    let now = verified_at + 4 * 86_400;
    assert!(qualifies_by_age(verified_at, now, 4));
    assert!(!qualifies_by_age(verified_at, now - 1, 4));
}

#[test]
fn age_saturates_instead_of_overflowing() {
    assert!(qualifies_by_age(i64::MIN, i64::MAX, u32::MAX));
    assert!(!qualifies_by_age(i64::MAX, i64::MIN, 0));
    assert!(qualifies_by_age(5, 5, 0));
}

#[test]
fn mtime_change_skips_deletion() {
    let rec = verified_record(100, 10, 50, "abc");
    let decision = evaluate_candidate(&rec, 10, 99, "abc", 100 + 5 * 86_400, 4);
    assert!(matches!(decision, RetentionDecision::Skip { .. }));
}

#[test]
fn hash_mismatch_skips_deletion() {
    let rec = verified_record(100, 10, 50, "abc");
    let decision = evaluate_candidate(&rec, 10, 50, "zzz", 100 + 5 * 86_400, 4);
    assert!(matches!(decision, RetentionDecision::Skip { .. }));
}

#[test]
fn skip_reasons_are_exact() {
    let mut rec = verified_record(100, 10, 50, "abc");
    let now = 100 + 5 * 86_400;
    assert!(matches!(evaluate_candidate(&rec, 10, 50, "abc", now, 4), RetentionDecision::Qualify));
    assert_eq!(
        reason(evaluate_candidate(&rec, 10, 50, "zzz", now, 4)),
        "source re-hash does not match stored dest_hash"
    );
    assert_eq!(
        reason(evaluate_candidate(&rec, 11, 50, "abc", now, 4)),
        "source size/mtime changed since verification; requires resync"
    );
    assert_eq!(
        reason(evaluate_candidate(&rec, 10, 50, "abc", 200, 4)),
        "retention window not elapsed (verified_at=100, now=200, days=4)"
    );
    rec.dest_hash = None;
    assert_eq!(reason(evaluate_candidate(&rec, 10, 50, "abc", now, 4)), "dest_hash missing");
    rec.verified_at = None;
    assert_eq!(reason(evaluate_candidate(&rec, 10, 50, "abc", now, 4)), "verified_at is missing");
    rec.status = FileStatus::Quarantined;
    assert_eq!(
        reason(evaluate_candidate(&rec, 10, 50, "abc", now, 4)),
        "status is Quarantined, not verified"
    );
}

fn opts(enabled: bool, dry_run: bool, mode: RetentionMode, now: i64) -> RetentionOptions {
    RetentionOptions {
        config: RetentionConfig {
            enabled,
            dry_run,
            retention_days: 4,
            mode,
            quarantine_dir: Some("q".into()),
            purge_grace_days: 14,
        },
        now_unix: now,
    }
}

#[test]
fn cleanup_cutoff_is_none_when_disabled() {
    assert_eq!(cleanup_cutoff(&opts(false, true, RetentionMode::Quarantine, 1_000_000)), None);
    assert_eq!(
        cleanup_cutoff(&opts(true, true, RetentionMode::Quarantine, 1_000_000)),
        Some(1_000_000 - 4 * 86_400)
    );
    assert_eq!(purge_cutoff(&opts(true, true, RetentionMode::Quarantine, 1_000_000)), 1_000_000 - 14 * 86_400);
}

#[test]
fn cleanup_steps_follow_the_safety_rules() {
    let now = 100 + 5 * 86_400;
    let rec = verified_record(100, 10, 50, "abc");
    let present = SourceProbe::Present { size: 10, mtime: 50, hash_hex: "abc".into() };
    let dry = opts(true, true, RetentionMode::Quarantine, now);
    let live = opts(true, false, RetentionMode::Quarantine, now);
    assert!(matches!(cleanup_step(&dry, &rec, &SourceProbe::Absent), CleanupStep::SkipAbsent));
    assert!(matches!(cleanup_step(&dry, &rec, &present), CleanupStep::WouldAct));
    assert!(matches!(cleanup_step(&live, &rec, &present), CleanupStep::Act));
    let changed = SourceProbe::Present { size: 10, mtime: 51, hash_hex: "abc".into() };
    assert!(matches!(cleanup_step(&live, &rec, &changed), CleanupStep::Skip { .. }));

    let mut stats = CleanupStats::default();
    stats.count(&CleanupStep::SkipAbsent);
    stats.count(&CleanupStep::WouldAct);
    stats.count(&CleanupStep::Act);
    assert_eq!((stats.skipped, stats.dry_run_would_act, stats.deleted_or_quarantined), (1, 1, 1));

    assert_eq!(CleanupStep::Act.audit_action(RetentionMode::Quarantine), "quarantine");
    assert_eq!(CleanupStep::Act.audit_action(RetentionMode::Permanent), "permanent_delete");
    assert_eq!(CleanupStep::WouldAct.audit_action(RetentionMode::Permanent), "would_delete");
    assert_eq!(CleanupStep::SkipAbsent.audit_reason(), "source file already absent");
    assert!(CleanupStep::WouldAct.audit_dry_run(false));
    assert!(!CleanupStep::Act.audit_dry_run(true));
}

#[test]
fn deletion_target_needs_quarantine_dir() {
    let mut cfg = RetentionConfig { mode: RetentionMode::Quarantine, ..RetentionConfig::default() };
    assert!(matches!(deletion_target(&cfg, "a/b"), Err(ferrisync::Error::Config(_))));
    cfg.quarantine_dir = Some("q".into());
    let t = deletion_target(&cfg, "nested/old.bin").unwrap().unwrap();
    assert!(t.starts_with('q') && t.ends_with("old.bin"));
    cfg.mode = RetentionMode::Permanent;
    assert_eq!(deletion_target(&cfg, "a").unwrap(), None);
}

#[test]
fn quarantine_then_purge_updates_records() {
    let mut store = StateStore::open_in_memory().unwrap();
    store.upsert_pair("p", "/src", "/dst").unwrap();
    let rec = verified_record(100, 10, 50, "abc");
    store.upsert_file(&rec).unwrap();
    let now = 10_000_000;
    commit_deletion(&mut store, "p", &rec, RetentionMode::Quarantine, Some("q/f.bin"), now).unwrap();
    let got = store.get_file("p", "f.bin").unwrap().unwrap();
    assert_eq!(got.status, FileStatus::Quarantined);
    assert_eq!(got.deleted_at, Some(now));
    assert_eq!(store.event_count().unwrap(), 1);

    let o = opts(true, false, RetentionMode::Quarantine, now);
    assert!(store.list_quarantined("p", purge_cutoff(&o)).unwrap().is_empty());
    let later = opts(true, false, RetentionMode::Quarantine, now + 20 * 86_400);
    let due = store.list_quarantined("p", purge_cutoff(&later)).unwrap();
    assert_eq!(due.len(), 1);
    commit_purge(&mut store, &due[0], later.now_unix).unwrap();
    let got = store.get_file("p", "f.bin").unwrap().unwrap();
    assert_eq!(got.status, FileStatus::Deleted);
    assert_eq!(got.deleted_at, Some(later.now_unix));

    log_retention_skip(&mut store, "p", "g.bin", "why", now).unwrap();
    assert_eq!(store.event_count().unwrap(), 2);
}

#[test]
fn options_from_config_keep_the_policy() {
    let o = RetentionOptions::from_config(RetentionConfig { retention_days: 9, ..RetentionConfig::default() });
    assert_eq!(o.config.retention_days, 9);
    assert!(o.now_unix > 1_600_000_000);
}

#[test]
fn skip_reason_writes_negative_times() {
    let rec = verified_record(-5, 10, 50, "abc");
    assert_eq!(
        reason(evaluate_candidate(&rec, 10, 50, "abc", -1, 4)),
        "retention window not elapsed (verified_at=-5, now=-1, days=4)"
    );
}

#[test]
fn quarantine_target_keeps_the_relative_path() {
    let cfg = RetentionConfig {
        mode: RetentionMode::Quarantine,
        quarantine_dir: Some("/q".into()),
        ..RetentionConfig::default()
    };
    assert_eq!(deletion_target(&cfg, "../a//./b.bin").unwrap(), Some("/q/a/b.bin".to_string()));
    assert_eq!(deletion_target(&cfg, "").unwrap(), Some("/q".to_string()));
}

#[test]
fn purge_step_follows_quarantine_dir_and_dry_run() {
    let mut cfg = RetentionConfig { quarantine_dir: None, dry_run: false, ..RetentionConfig::default() };
    assert!(matches!(purge_step(&cfg), PurgeStep::SkipAll));
    cfg.dry_run = true;
    assert!(matches!(purge_step(&cfg), PurgeStep::SkipAll));
    cfg.quarantine_dir = Some("q".into());
    assert!(matches!(purge_step(&cfg), PurgeStep::WouldPurge));
    cfg.dry_run = false;
    assert!(matches!(purge_step(&cfg), PurgeStep::Purge));
}

#[test]
fn dry_run_purge_never_purges() {
    let cfg = RetentionConfig { quarantine_dir: Some("q".into()), dry_run: true, ..RetentionConfig::default() };
    let step = purge_step(&cfg);
    assert!(!matches!(step, PurgeStep::Purge));
    let mut stats = PurgeStats::default();
    stats.count(step);
    assert_eq!((stats.purged, stats.dry_run_would_act, stats.skipped), (0, 1, 0));
}

#[test]
fn purge_counts_and_audit_texts() {
    let mut stats = PurgeStats::default();
    stats.count(PurgeStep::Purge);
    stats.count(PurgeStep::Purge);
    stats.count(PurgeStep::WouldPurge);
    stats.count(PurgeStep::SkipAll);
    assert_eq!((stats.purged, stats.dry_run_would_act, stats.skipped), (2, 1, 0));
    assert_eq!(PurgeStep::Purge.audit_action(), Some("purge"));
    assert_eq!(PurgeStep::WouldPurge.audit_action(), Some("would_purge"));
    assert_eq!(PurgeStep::SkipAll.audit_action(), None);
    assert!(PurgeStep::WouldPurge.audit_dry_run());
    assert!(!PurgeStep::Purge.audit_dry_run());
    assert_eq!(purge_audit_reason(), "past purge grace period");
}

#[test]
fn cleanup_counters_add_up_over_a_run() {
    for dry_run in [true, false] {
        let o = opts(true, dry_run, RetentionMode::Quarantine, 10_000_000);
        let good = verified_record(100, 10, 50, "abc");
        let changed = verified_record(100, 10, 50, "abc");
        let cases = vec![
            (good.clone(), SourceProbe::Present { size: 10, mtime: 50, hash_hex: "abc".into() }),
            (changed, SourceProbe::Present { size: 11, mtime: 50, hash_hex: "abc".into() }),
            (good, SourceProbe::Absent),
        ];
        let mut stats = CleanupStats::default();
        stats.candidates = cases.len() as u64;
        for (rec, probe) in &cases {
            let step = cleanup_step(&o, rec, probe);
            stats.count(&step);
        }
        assert_eq!(stats.skipped + stats.dry_run_would_act + stats.deleted_or_quarantined, stats.candidates);
        if dry_run {
            assert_eq!((stats.dry_run_would_act, stats.deleted_or_quarantined, stats.skipped), (1, 0, 2));
        } else {
            assert_eq!((stats.dry_run_would_act, stats.deleted_or_quarantined, stats.skipped), (0, 1, 2));
        }
    }
}

#[test]
fn purge_counters_add_up_over_a_run() {
    let cfg = RetentionConfig { quarantine_dir: Some("q".into()), dry_run: true, ..RetentionConfig::default() };
    let step = purge_step(&cfg);
    let mut stats = PurgeStats::default();
    for _ in 0..3 {
        stats.count(step);
    }
    assert_eq!((stats.purged, stats.dry_run_would_act, stats.skipped), (0, 3, 0));
}
