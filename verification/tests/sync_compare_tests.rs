use ferrisync::compare::{compare_row, path_le, CompareAction, CompareResult, CompareRow};
use ferrisync::config::{CompareMode, Config, DefaultsConfig, PairConfig};
use ferrisync::error::Error;
use ferrisync::hasher::hex_encode;
use ferrisync::queue::SyncJob;
use ferrisync::scanner::FileMeta;
use ferrisync::state_store::{FileRecord, FileStatus, StateStore};
use ferrisync::sync_engine::{
    commit_outcome, failed_outcome, finish_copy, hashes_match_record, plan_job, require_record,
    retry_after_failure, temp_file_name, CopyOutcome, RetryStep, SyncOptions, SyncStats,
};

fn meta(path: &str, size: u64, mtime: i64) -> FileMeta {
    FileMeta { relative_path: path.into(), absolute_path: format!("/src/{path}"), size, mtime }
}

fn row(path: &str, action: CompareAction) -> CompareRow {
    CompareRow {
        relative_path: path.into(),
        action,
        source_size: Some(1),
        dest_size: None,
        source_mtime: Some(1),
        dest_mtime: None,
    }
}

#[test]
fn compare_detects_new_and_unchanged_rows() {
    let a = meta("a.txt", 3, 7);
    let a_dest = meta("a.txt", 3, 7);
    let b = meta("b.txt", 3, 7);
    let ra = compare_row(a, Some(&a_dest), None);
    let rb = compare_row(b, None, None);
    assert_eq!(ra.action, CompareAction::Unchanged);
    assert_eq!(rb.action, CompareAction::New);
    assert_eq!(ra.dest_size, Some(3));
    assert_eq!(rb.dest_size, None);
    let result = CompareResult::from_rows(vec![rb, ra], 2);
    assert_eq!(result.scanned, 2);
    assert_eq!(result.to_copy, 1);
    assert_eq!(result.unchanged, 1);
    assert_eq!(result.rows[0].relative_path, "a.txt");
    assert_eq!(result.rows[1].relative_path, "b.txt");
}

#[test]
fn compare_rows_are_sorted_by_path() {
    let rows = vec![
        row("z", CompareAction::New),
        row("a/b", CompareAction::Updated),
        row("a", CompareAction::MissingOnDest),
        row("é", CompareAction::Unchanged),
        row("B", CompareAction::New),
    ];
    let r = CompareResult::from_rows(rows, 5);
    let paths: Vec<&str> = r.rows.iter().map(|x| x.relative_path.as_str()).collect();
    assert_eq!(paths, vec!["B", "a", "a/b", "z", "é"]);
    assert_eq!(r.to_copy, 4);
    assert!(path_le("a", "ab"));
    assert!(!path_le("b", "ab"));
    assert_eq!(CompareAction::MissingOnDest.as_str(), "missing_on_dest");
}

#[test]
fn plan_job_skips_unchanged_files() {
    let m = meta("f.bin", 10, 5);
    assert!(plan_job("p", "/dst", &m, Some(&meta("f.bin", 10, 5)), None).is_none());
    let job = plan_job("p", "/dst", &m, None, None).unwrap();
    assert_eq!(job.pair_id, "p");
    assert_eq!(job.dest_root, "/dst");
    assert_eq!(job.source_path, "/src/f.bin");
    assert_eq!((job.size, job.mtime), (10, 5));
}

fn job() -> SyncJob {
    SyncJob::from_meta("p", "/dst", &meta("f.bin", 4, 9))
}

#[test]
fn finish_copy_accepts_equal_digests_only() {
    let d = [7u8; 32];
    match finish_copy(&job(), &d, &d, 4).unwrap() {
        CopyOutcome::Copied { source_hash, dest_hash, bytes, relative_path, .. } => {
            assert_eq!(source_hash, hex_encode(&d));
            assert_eq!(source_hash, dest_hash);
            assert_eq!(bytes, 4);
            assert_eq!(relative_path, "f.bin");
        }
        other => panic!("unexpected {:?}", other),
    }
    let mut e = d;
    e[3] = 8;
    match finish_copy(&job(), &d, &e, 4) {
        Err(Error::HashMismatch { path, source_hash, dest_hash }) => {
            assert_eq!(path, "/src/f.bin");
            assert_ne!(source_hash, dest_hash);
        }
        other => panic!("unexpected {:?}", other),
    }
}

#[test]
fn retries_back_off_then_give_up() {
    assert_eq!(retry_after_failure(0, 1, 10), RetryStep::Wait { attempt: 1, delay_ms: 10 });
    assert_eq!(retry_after_failure(1, 3, 10), RetryStep::Wait { attempt: 2, delay_ms: 20 });
    assert_eq!(retry_after_failure(1, 1, 10), RetryStep::GiveUp);
    assert_eq!(retry_after_failure(0, 0, 10), RetryStep::GiveUp);
    assert_eq!(retry_after_failure(2, 5, u64::MAX), RetryStep::Wait { attempt: 3, delay_ms: u64::MAX });
}

#[test]
fn temp_name_wraps_file_name() {
    let n = temp_file_name("ok.bin");
    assert!(n.starts_with(".ferrisync-tmp-"));
    assert!(n.ends_with("-ok.bin"));
    assert_eq!(n.len(), ".ferrisync-tmp-".len() + 36 + 1 + "ok.bin".len());
    assert_ne!(temp_file_name("ok.bin"), n);
}

#[test]
fn commit_records_verified_copy_and_failure() {
    let mut store = StateStore::open_in_memory().unwrap();
    store.upsert_pair("p", "/src", "/dst").unwrap();
    let d = [1u8; 32];
    let ok = finish_copy(&job(), &d, &d, 4).unwrap();
    let mut stats = SyncStats::default();
    stats.record_outcome(&ok);
    commit_outcome(&mut store, ok, 1234).unwrap();
    let rec = store.get_file("p", "f.bin").unwrap().unwrap();
    assert_eq!(rec.status, FileStatus::Verified);
    assert!(rec.source_hash.is_some());
    assert_eq!(rec.source_hash, rec.dest_hash);
    assert_eq!(rec.verified_at, Some(1234));
    assert!(hashes_match_record(&rec, &hex_encode(&d), &hex_encode(&d)));
    assert!(!hashes_match_record(&rec, &hex_encode(&[2u8; 32]), &hex_encode(&d)));

    let failed = failed_outcome(&job(), "disk full".into());
    stats.record_outcome(&failed);
    commit_outcome(&mut store, failed, 1300).unwrap();
    let rec = store.get_file("p", "f.bin").unwrap().unwrap();
    assert_eq!(rec.status, FileStatus::Error);
    assert_eq!(rec.source_hash, None);
    assert_eq!(store.event_count().unwrap(), 2);
    assert_eq!((stats.copied, stats.errors, stats.bytes_copied), (1, 1, 4));
}

#[test]
fn missing_record_is_reported() {
    match require_record(None, "f.bin") {
        Err(Error::Other(m)) => assert_eq!(m, "no state for f.bin"),
        other => panic!("unexpected {:?}", other),
    }
    let rec = FileRecord {
        pair_id: "p".into(),
        path: "f".into(),
        size: 1,
        mtime: 1,
        source_hash: None,
        dest_hash: None,
        synced_at: None,
        verified_at: None,
        deleted_at: None,
        status: FileStatus::Pending,
    };
    assert!(require_record(Some(rec), "f").is_ok());
}

#[test]
fn sync_options_from_config() {
    let cfg = Config {
        state_db: None,
        log_level: "info".into(),
        audit_log: None,
        defaults: DefaultsConfig::default(),
        pairs: vec![],
    };
    let pair = PairConfig {
        id: "t".into(),
        source: "s".into(),
        destination: "d".into(),
        concurrency: Some(8),
        retention: None,
    };
    let o = SyncOptions::from_config(&cfg, &pair);
    assert_eq!(o.concurrency, 8);
    assert_eq!(o.retry_count, 3);
    assert_eq!(o.retry_backoff_ms, 500);
    assert_eq!(o.compare_mode, CompareMode::SizeMtime);
    assert_eq!(o.worker_count(), 8);
    assert_eq!(o.outcome_capacity(), 32);
    assert_eq!(o.heartbeat_interval(), 10);
    let small = SyncOptions { concurrency: 0, heartbeat_secs: 0, ..o };
    assert_eq!(small.worker_count(), 1);
    assert_eq!(small.outcome_capacity(), 16);
    assert_eq!(small.heartbeat_interval(), 1);
}

#[test]
fn sync_counters_add_up_over_a_run() {
    let files = vec![meta("a.bin", 4, 9), meta("b.bin", 10, 5), meta("c.bin", 3, 1)];
    let dests = vec![None, Some(meta("b.bin", 10, 5)), None];
    let mut stats = SyncStats::default();
    stats.scanned = files.len() as u64;
    let mut jobs = Vec::new();
    for (m, d) in files.iter().zip(dests.iter()) {
        match plan_job("p", "/dst", m, d.as_ref(), None) {
            None => stats.skipped += 1,
            Some(j) => jobs.push(j),
        }
    }
    let d = [7u8; 32];
    let ok = finish_copy(&jobs[0], &d, &d, 4).unwrap();
    stats.record_outcome(&ok);
    let failed = failed_outcome(&jobs[1], "disk full".into());
    stats.record_outcome(&failed);
    assert_eq!((stats.scanned, stats.skipped), (3, 1));
    assert_eq!(stats.copied + stats.errors, stats.scanned - stats.skipped);
    assert_eq!((stats.copied, stats.errors, stats.bytes_copied), (1, 1, 4));
}

#[test]
fn committed_copy_is_unchanged_next_run_and_missing_copy_is_planned() {
    let mut store = StateStore::open_in_memory().unwrap();
    store.upsert_pair("p", "/src", "/dst").unwrap();
    let d = [7u8; 32];
    let ok = finish_copy(&job(), &d, &d, 4).unwrap();
    commit_outcome(&mut store, ok, 1234).unwrap();
    let rec = store.get_file("p", "f.bin").unwrap().unwrap();
    let source = meta("f.bin", 4, 9);
    let dest = meta("f.bin", 4, 9);
    assert_eq!(ferrisync::scanner::classify(&source, Some(&dest), Some(&rec)), ferrisync::scanner::FileAction::Unchanged);
    assert!(plan_job("p", "/dst", &source, Some(&dest), Some(&rec)).is_none());
    assert_eq!(ferrisync::scanner::classify(&source, None, Some(&rec)), ferrisync::scanner::FileAction::MissingOnDest);
    assert!(plan_job("p", "/dst", &source, None, Some(&rec)).is_some());
}

#[test]
fn every_failing_job_is_tried_retry_count_plus_one_times() {
    let mut attempt = 0u32;
    let mut tries = 1u32;
    let mut delays = Vec::new();
    loop {
        match retry_after_failure(attempt, 3, 10) {
            RetryStep::GiveUp => break,
            RetryStep::Wait { attempt: next, delay_ms } => {
                attempt = next;
                tries += 1;
                delays.push(delay_ms);
            }
        }
    }
    assert_eq!(tries, 4);
    assert_eq!(delays, vec![10, 20, 30]);
}
