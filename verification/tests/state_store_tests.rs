use ferrisync::state_store::{FileRecord, FileStatus, StateStore};

#[test]
fn upsert_and_get_file() {
    let mut store = StateStore::open_in_memory().unwrap();
    store.upsert_pair("p1", "/src", "/dst").unwrap();
    let record = FileRecord {
        pair_id: "p1".into(),
        path: "a/b.bin".into(),
        size: 10,
        mtime: 100,
        source_hash: Some("aa".into()),
        dest_hash: Some("aa".into()),
        synced_at: Some(200),
        verified_at: Some(200),
        deleted_at: None,
        status: FileStatus::Verified,
    };
    store.upsert_file(&record).unwrap();
    let got = store.get_file("p1", "a/b.bin").unwrap().unwrap();
    assert_eq!(got.size, 10);
    assert_eq!(got.status, FileStatus::Verified);
    assert_eq!(got.source_hash.as_deref(), Some("aa"));
}

#[test]
fn list_verified_respects_cutoff() {
    let mut store = StateStore::open_in_memory().unwrap();
    store.upsert_pair("p1", "/src", "/dst").unwrap();
    for (path, verified_at) in [("old.bin", 100i64), ("new.bin", 500i64)] {
        store
            .upsert_file(&FileRecord {
                pair_id: "p1".into(),
                path: path.into(),
                size: 1,
                mtime: 1,
                source_hash: Some("h".into()),
                dest_hash: Some("h".into()),
                synced_at: Some(verified_at),
                verified_at: Some(verified_at),
                deleted_at: None,
                status: FileStatus::Verified,
            })
            .unwrap();
    }
    let rows = store.list_verified_for_retention("p1", 200).unwrap();
    assert_eq!(rows.len(), 1);
    assert_eq!(rows[0].path, "old.bin");
}

#[test]
fn log_event_persists() {
    let mut store = StateStore::open_in_memory().unwrap();
    store
        .log_event(Some("p1"), Some("x"), "test", Some("detail"), 1)
        .unwrap();
    assert_eq!(store.event_count().unwrap(), 1);
}

#[test]
fn status_text_round_trips() {
    for s in [
        FileStatus::Pending,
        FileStatus::Synced,
        FileStatus::Verified,
        FileStatus::Quarantined,
        FileStatus::Deleted,
        FileStatus::Error,
    ] {
        assert_eq!(FileStatus::parse(s.as_str()), Some(s));
    }
    assert_eq!(FileStatus::as_str(FileStatus::Quarantined), "quarantined");
    assert_eq!(FileStatus::parse("Verified"), None);
}

#[test]
fn upsert_replaces_row_with_same_key() {
    let mut store = StateStore::open_in_memory().unwrap();
    store.upsert_pair("p", "s", "d").unwrap();
    let mut rec = FileRecord {
        pair_id: "p".into(),
        path: "f".into(),
        size: 1,
        mtime: 2,
        source_hash: None,
        dest_hash: None,
        synced_at: None,
        verified_at: None,
        deleted_at: None,
        status: FileStatus::Pending,
    };
    store.upsert_file(&rec).unwrap();
    rec.status = FileStatus::Error;
    rec.size = 5;
    store.upsert_file(&rec).unwrap();
    let got = store.get_file("p", "f").unwrap().unwrap();
    assert_eq!(got.status, FileStatus::Error);
    assert_eq!(got.size, 5);
    assert!(store.get_file("p", "g").unwrap().is_none());
    assert!(store.get_file("q", "f").unwrap().is_none());
}

#[test]
fn file_of_unknown_pair_is_refused() {
    let mut store = StateStore::open_in_memory().unwrap();
    let rec = FileRecord {
        pair_id: "nobody".into(),
        path: "f".into(),
        size: 1,
        mtime: 2,
        source_hash: None,
        dest_hash: None,
        synced_at: None,
        verified_at: None,
        deleted_at: None,
        status: FileStatus::Pending,
    };
    assert!(matches!(store.upsert_file(&rec), Err(ferrisync::Error::Db(_))));
    assert!(store.get_file("nobody", "f").unwrap().is_none());
}

#[test]
fn db_path_hint_is_state_db() {
    assert_eq!(StateStore::db_path_hint(), "state.db");
}

#[test]
fn status_report_lists_every_field() {
    let rec = FileRecord {
        pair_id: "p1".into(),
        path: "a/b.bin".into(),
        size: 10,
        mtime: -3,
        source_hash: Some("aa".into()),
        dest_hash: None,
        synced_at: Some(200),
        verified_at: None,
        deleted_at: None,
        status: FileStatus::Verified,
    };
    assert_eq!(
        rec.status_report(),
        "pair=p1 path=a/b.bin status=verified size=10 mtime=-3 source_hash=aa dest_hash=- synced_at=Some(200) verified_at=None deleted_at=None"
    );
}
