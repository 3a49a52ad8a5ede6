//! Persistent sync state: per-file records keyed by `(pair_id, path)`, the folder
//! pairs they belong to, and an append-only event log, held in SQLite.

use vstd::prelude::*;

use crate::text::{clone_opt_string, str_eq};
use rusqlite::OptionalExtension;

verus! {

/// Lifecycle status of a file record.
#[derive(Debug, Clone, Copy, PartialEq, Eq, Structural)]
pub enum FileStatus {
    Pending,
    Synced,
    Verified,
    Quarantined,
    Deleted,
    Error,
}

/// The text under which a status is stored.
pub open spec fn status_text(s: FileStatus) -> Seq<char> {
    match s {
        FileStatus::Pending => "pending"@,
        FileStatus::Synced => "synced"@,
        FileStatus::Verified => "verified"@,
        FileStatus::Quarantined => "quarantined"@,
        FileStatus::Deleted => "deleted"@,
        FileStatus::Error => "error"@,
    }
}

/// The status that a stored text names, if any.
pub open spec fn status_of_text(t: Seq<char>) -> Option<FileStatus> {
    if t == "pending"@ {
        Some(FileStatus::Pending)
    } else if t == "synced"@ {
        Some(FileStatus::Synced)
    } else if t == "verified"@ {
        Some(FileStatus::Verified)
    } else if t == "quarantined"@ {
        Some(FileStatus::Quarantined)
    } else if t == "deleted"@ {
        Some(FileStatus::Deleted)
    } else if t == "error"@ {
        Some(FileStatus::Error)
    } else {
        None
    }
}

/// The status that a record read from the database gets: an unknown text reads as `Error`.
pub open spec fn status_read_back(t: Seq<char>) -> FileStatus {
    match status_of_text(t) {
        Some(s) => s,
        None => FileStatus::Error,
    }
}

impl FileStatus {
    pub fn as_str(self) -> (r: &'static str)
        ensures
            r@ == status_text(self),
    {
        match self {
            FileStatus::Pending => "pending",
            FileStatus::Synced => "synced",
            FileStatus::Verified => "verified",
            FileStatus::Quarantined => "quarantined",
            FileStatus::Deleted => "deleted",
            FileStatus::Error => "error",
        }
    }

    pub fn parse(s: &str) -> (r: Option<FileStatus>)
        ensures
            r == status_of_text(s@),
    {
        if str_eq(s, "pending") {
            Some(FileStatus::Pending)
        } else if str_eq(s, "synced") {
            Some(FileStatus::Synced)
        } else if str_eq(s, "verified") {
            Some(FileStatus::Verified)
        } else if str_eq(s, "quarantined") {
            Some(FileStatus::Quarantined)
        } else if str_eq(s, "deleted") {
            Some(FileStatus::Deleted)
        } else if str_eq(s, "error") {
            Some(FileStatus::Error)
        } else {
            None
        }
    }
}

/// Parsing the stored text of a status gives the status back.
pub proof fn law_status_text_round_trip(s: FileStatus)
    ensures
        status_of_text(status_text(s)) == Some(s),
        status_read_back(status_text(s)) == s,
{
    reveal_strlit("pending");
    reveal_strlit("synced");
    reveal_strlit("verified");
    reveal_strlit("quarantined");
    reveal_strlit("deleted");
    reveal_strlit("error");
    assert("pending"@.len() == 7 && "synced"@.len() == 6 && "verified"@.len() == 8);
    assert("quarantined"@.len() == 11 && "deleted"@.len() == 7 && "error"@.len() == 5);
    assert("pending"@[0] == 'p' && "deleted"@[0] == 'd');
    assert("pending"@ != "deleted"@);
}

/// The state of one file of one folder pair.
#[derive(Debug)]
pub struct FileRecord {
    pub pair_id: String,
    pub path: String,
    pub size: i64,
    pub mtime: i64,
    pub source_hash: Option<String>,
    pub dest_hash: Option<String>,
    pub synced_at: Option<i64>,
    pub verified_at: Option<i64>,
    pub deleted_at: Option<i64>,
    pub status: FileStatus,
}

impl Clone for FileRecord {
    fn clone(&self) -> (r: Self)
        ensures
            r == *self,
    {
        FileRecord {
            pair_id: self.pair_id.clone(),
            path: self.path.clone(),
            size: self.size,
            mtime: self.mtime,
            source_hash: clone_opt_string(&self.source_hash),
            dest_hash: clone_opt_string(&self.dest_hash),
            synced_at: self.synced_at,
            verified_at: self.verified_at,
            deleted_at: self.deleted_at,
            status: self.status,
        }
    }
}

/// The key of a stored file row: pair id and relative path.
pub type RowKey = (Seq<char>, Seq<char>);

/// The columns of a stored file row after its key: size, mtime, source hash, dest hash,
/// synced_at, verified_at, deleted_at and the status text.
pub type StoredRow = (
    i64,
    i64,
    Option<Seq<char>>,
    Option<Seq<char>>,
    Option<i64>,
    Option<i64>,
    Option<i64>,
    Seq<char>,
);

/// A stored event: pair id, path, event type, detail, creation time.
pub type StoredEvent = (Option<Seq<char>>, Option<Seq<char>>, Seq<char>, Option<Seq<char>>, i64);

pub open spec fn no_files() -> Map<RowKey, StoredRow> {
    Map::empty()
}

pub open spec fn no_pairs() -> Map<Seq<char>, (Seq<char>, Seq<char>)> {
    Map::empty()
}

pub open spec fn no_events() -> Seq<StoredEvent> {
    Seq::empty()
}

/// A file row as the database hands it out, in column order.
pub type FileRow = (
    String,
    String,
    i64,
    i64,
    Option<String>,
    Option<String>,
    Option<i64>,
    Option<i64>,
    Option<i64>,
    String,
);

pub open spec fn opt_text(o: Option<String>) -> Option<Seq<char>> {
    match o {
        Some(s) => Some(s@),
        None => None,
    }
}

pub open spec fn opt_str(o: Option<&str>) -> Option<Seq<char>> {
    match o {
        Some(s) => Some(s@),
        None => None,
    }
}

pub open spec fn record_key(r: FileRecord) -> RowKey {
    (r.pair_id@, r.path@)
}

/// The row that storing a record writes.
pub open spec fn record_row(r: FileRecord) -> StoredRow {
    (
        r.size,
        r.mtime,
        opt_text(r.source_hash),
        opt_text(r.dest_hash),
        r.synced_at,
        r.verified_at,
        r.deleted_at,
        status_text(r.status),
    )
}

pub open spec fn row_key(r: FileRow) -> RowKey {
    (r.0@, r.1@)
}

pub open spec fn row_stored(r: FileRow) -> StoredRow {
    (r.2, r.3, opt_text(r.4), opt_text(r.5), r.6, r.7, r.8, r.9@)
}

/// `rec` is what reading the stored row `row` under `key` gives.
pub open spec fn reads_back(key: RowKey, row: StoredRow, rec: FileRecord) -> bool {
    &&& rec.pair_id@ == key.0
    &&& rec.path@ == key.1
    &&& rec.size == row.0
    &&& rec.mtime == row.1
    &&& opt_text(rec.source_hash) == row.2
    &&& opt_text(rec.dest_hash) == row.3
    &&& rec.synced_at == row.4
    &&& rec.verified_at == row.5
    &&& rec.deleted_at == row.6
    &&& rec.status == status_read_back(row.7)
}

/// `rows` lists, once each and in some order, exactly the stored rows that satisfy `pred`.
pub open spec fn rows_list_exactly(
    files: Map<RowKey, StoredRow>,
    rows: Seq<FileRow>,
    pred: spec_fn(RowKey, StoredRow) -> bool,
) -> bool {
    &&& forall|i: int|
        0 <= i < rows.len() ==> {
            &&& files.contains_key(#[trigger] row_key(rows[i]))
            &&& files[row_key(rows[i])] == row_stored(rows[i])
            &&& pred(row_key(rows[i]), row_stored(rows[i]))
        }
    &&& forall|k: RowKey|
        #[trigger] files.contains_key(k) && pred(k, files[k]) ==> exists|i: int|
            0 <= i < rows.len() && row_key(rows[i]) == k
    &&& forall|i: int, j: int|
        0 <= i < j < rows.len() ==> row_key(rows[i]) != row_key(rows[j])
}

/// `recs` reads back, once each and in some order, exactly the stored rows that satisfy `pred`.
pub open spec fn records_list_exactly(
    files: Map<RowKey, StoredRow>,
    recs: Seq<FileRecord>,
    pred: spec_fn(RowKey, StoredRow) -> bool,
) -> bool {
    &&& forall|i: int|
        0 <= i < recs.len() ==> {
            &&& files.contains_key(#[trigger] record_key(recs[i]))
            &&& reads_back(record_key(recs[i]), files[record_key(recs[i])], recs[i])
            &&& pred(record_key(recs[i]), files[record_key(recs[i])])
        }
    &&& forall|k: RowKey|
        #[trigger] files.contains_key(k) && pred(k, files[k]) ==> exists|i: int|
            0 <= i < recs.len() && record_key(recs[i]) == k
    &&& forall|i: int, j: int|
        0 <= i < j < recs.len() ==> record_key(recs[i]) != record_key(recs[j])
}

/// Rows of pair `pair_id` that are verified with `verified_at <= before`.
pub open spec fn verified_by(pair_id: Seq<char>, before: i64) -> spec_fn(RowKey, StoredRow) -> bool {
    |k: RowKey, row: StoredRow|
        k.0 == pair_id && row.7 == "verified"@ && row.5 is Some && row.5->0 <= before
}

/// Rows of pair `pair_id` that are quarantined with `deleted_at <= before`.
pub open spec fn quarantined_by(pair_id: Seq<char>, before: i64) -> spec_fn(RowKey, StoredRow) -> bool {
    |k: RowKey, row: StoredRow|
        k.0 == pair_id && row.7 == "quarantined"@ && row.6 is Some && row.6->0 <= before
}

#[verifier::external_type_specification]
#[verifier::external_body]
pub struct ExConnection(rusqlite::Connection);

/// The rows of the `files` table of a connection, by key.
pub uninterp spec fn db_files(conn: rusqlite::Connection) -> Map<RowKey, StoredRow>;

/// The rows of the `folder_pairs` table of a connection: id to (source, destination).
pub uninterp spec fn db_pairs(conn: rusqlite::Connection) -> Map<Seq<char>, (Seq<char>, Seq<char>)>;

/// The rows of the `events` table of a connection, in insertion order.
pub uninterp spec fn db_events(conn: rusqlite::Connection) -> Seq<StoredEvent>;

/// `rusqlite::Connection::open_in_memory`: a fresh private in-memory database holds no rows.
#[verifier::external_body]
fn db_open_in_memory() -> (r: Result<rusqlite::Connection, String>)
    ensures
        r matches Ok(c) ==> db_files(c) == no_files() && db_pairs(c) == no_pairs() && db_events(c) == no_events(),
{
    rusqlite::Connection::open_in_memory().map_err(|e| e.to_string())
}

/// `Connection::execute_batch` with the PRAGMAs of a database file: WAL journal,
/// relaxed sync, foreign keys. PRAGMAs change settings, never rows.
#[verifier::external_body]
fn db_pragmas_for_file(conn: &mut rusqlite::Connection) -> (r: Result<(), String>)
    ensures
        db_files(*final(conn)) == db_files(*old(conn)),
        db_pairs(*final(conn)) == db_pairs(*old(conn)),
        db_events(*final(conn)) == db_events(*old(conn)),
{
    conn.execute_batch("PRAGMA journal_mode=WAL; PRAGMA synchronous=NORMAL; PRAGMA foreign_keys=ON;").map_err(
        |e| e.to_string(),
    )
}

/// `Connection::execute_batch` with the PRAGMA of an in-memory database: foreign keys.
#[verifier::external_body]
fn db_pragmas_for_memory(conn: &mut rusqlite::Connection) -> (r: Result<(), String>)
    ensures
        db_files(*final(conn)) == db_files(*old(conn)),
        db_pairs(*final(conn)) == db_pairs(*old(conn)),
        db_events(*final(conn)) == db_events(*old(conn)),
{
    conn.execute_batch("PRAGMA foreign_keys=ON;").map_err(|e| e.to_string())
}

/// `Connection::execute_batch` with the schema: `CREATE TABLE/INDEX IF NOT EXISTS` adds
/// missing (empty) tables and leaves existing rows as they are.
#[verifier::external_body]
fn db_migrate(conn: &mut rusqlite::Connection) -> (r: Result<(), String>)
    ensures
        db_files(*final(conn)) == db_files(*old(conn)),
        db_pairs(*final(conn)) == db_pairs(*old(conn)),
        db_events(*final(conn)) == db_events(*old(conn)),
{
    conn.execute_batch(
        "CREATE TABLE IF NOT EXISTS folder_pairs (id TEXT PRIMARY KEY, source TEXT NOT NULL, destination TEXT NOT NULL);
         CREATE TABLE IF NOT EXISTS files (pair_id TEXT NOT NULL, path TEXT NOT NULL, size INTEGER NOT NULL, mtime INTEGER NOT NULL, source_hash TEXT, dest_hash TEXT, synced_at INTEGER, verified_at INTEGER, deleted_at INTEGER, status TEXT NOT NULL, PRIMARY KEY (pair_id, path), FOREIGN KEY (pair_id) REFERENCES folder_pairs(id));
         CREATE TABLE IF NOT EXISTS events (id INTEGER PRIMARY KEY AUTOINCREMENT, pair_id TEXT, path TEXT, event_type TEXT NOT NULL, detail TEXT, created_at INTEGER NOT NULL);
         CREATE INDEX IF NOT EXISTS idx_files_status ON files(pair_id, status, verified_at);",
    ).map_err(|e| e.to_string())
}

/// `Connection::execute` of an upsert into `folder_pairs`. A statement that fails changes
/// no row (SQLite statements are atomic).
#[verifier::external_body]
fn db_upsert_pair(conn: &mut rusqlite::Connection, id: &str, source: &str, destination: &str) -> (r:
    Result<usize, String>)
    ensures
        r is Ok ==> db_pairs(*final(conn)) == db_pairs(*old(conn)).insert(id@, (source@, destination@)),
        r is Err ==> db_pairs(*final(conn)) == db_pairs(*old(conn)),
        db_files(*final(conn)) == db_files(*old(conn)),
        db_events(*final(conn)) == db_events(*old(conn)),
{
    conn.execute(
        "INSERT INTO folder_pairs (id, source, destination) VALUES (?1, ?2, ?3)
         ON CONFLICT(id) DO UPDATE SET source=excluded.source, destination=excluded.destination",
        (id, source, destination),
    ).map_err(|e| e.to_string())
}

/// `Connection::execute` of an upsert into `files`, keyed by `(pair_id, path)`, with
/// `status` as the status column. A statement that fails changes no row.
#[verifier::external_body]
fn db_upsert_file(conn: &mut rusqlite::Connection, rec: &FileRecord, status: &str) -> (r: Result<
    usize,
    String,
>)
    ensures
        r is Ok ==> db_files(*final(conn)) == db_files(*old(conn)).insert(
            record_key(*rec),
            (
                rec.size,
                rec.mtime,
                opt_text(rec.source_hash),
                opt_text(rec.dest_hash),
                rec.synced_at,
                rec.verified_at,
                rec.deleted_at,
                status@,
            ),
        ),
        r is Err ==> db_files(*final(conn)) == db_files(*old(conn)),
        db_pairs(*final(conn)) == db_pairs(*old(conn)),
        db_events(*final(conn)) == db_events(*old(conn)),
{
    conn.execute(
        "INSERT INTO files (pair_id, path, size, mtime, source_hash, dest_hash, synced_at, verified_at, deleted_at, status)
         VALUES (?1, ?2, ?3, ?4, ?5, ?6, ?7, ?8, ?9, ?10)
         ON CONFLICT(pair_id, path) DO UPDATE SET size=excluded.size, mtime=excluded.mtime,
            source_hash=excluded.source_hash, dest_hash=excluded.dest_hash, synced_at=excluded.synced_at,
            verified_at=excluded.verified_at, deleted_at=excluded.deleted_at, status=excluded.status",
        (&rec.pair_id, &rec.path, rec.size, rec.mtime, &rec.source_hash, &rec.dest_hash,
         rec.synced_at, rec.verified_at, rec.deleted_at, status),
    ).map_err(|e| e.to_string())
}

/// `Connection::query_row` (made optional) selecting the `files` row with the given key.
#[verifier::external_body]
fn db_get_file(conn: &rusqlite::Connection, pair_id: &str, path: &str) -> (r: Result<
    Option<FileRow>,
    String,
>)
    ensures
        r matches Ok(o) ==> match o {
            Some(row) => row_key(row) == (pair_id@, path@) && db_files(*conn).contains_key(row_key(row))
                && db_files(*conn)[row_key(row)] == row_stored(row),
            None => !db_files(*conn).contains_key((pair_id@, path@)),
        },
{
    conn.query_row(
        "SELECT pair_id, path, size, mtime, source_hash, dest_hash, synced_at, verified_at, deleted_at, status
         FROM files WHERE pair_id = ?1 AND path = ?2",
        (pair_id, path),
        |row| FileRow::try_from(row),
    ).optional().map_err(|e| e.to_string())
}

/// `Statement::query_map` over the verified rows of a pair with `verified_at <= before`.
#[verifier::external_body]
fn db_list_verified(conn: &rusqlite::Connection, pair_id: &str, before: i64) -> (r: Result<
    Vec<FileRow>,
    String,
>)
    ensures
        r matches Ok(v) ==> rows_list_exactly(db_files(*conn), v@, verified_by(pair_id@, before)),
{
    let mut stmt = conn.prepare(
        "SELECT pair_id, path, size, mtime, source_hash, dest_hash, synced_at, verified_at, deleted_at, status
         FROM files WHERE pair_id = ?1 AND status = 'verified' AND verified_at IS NOT NULL AND verified_at <= ?2",
    ).map_err(|e| e.to_string())?;
    let rows = stmt.query_map((pair_id, before), |row| FileRow::try_from(row)).map_err(|e| e.to_string())?;
    rows.collect::<Result<Vec<FileRow>, rusqlite::Error>>().map_err(|e| e.to_string())
}

/// `Statement::query_map` over the quarantined rows of a pair with `deleted_at <= before`.
#[verifier::external_body]
fn db_list_quarantined(conn: &rusqlite::Connection, pair_id: &str, before: i64) -> (r: Result<
    Vec<FileRow>,
    String,
>)
    ensures
        r matches Ok(v) ==> rows_list_exactly(db_files(*conn), v@, quarantined_by(pair_id@, before)),
{
    let mut stmt = conn.prepare(
        "SELECT pair_id, path, size, mtime, source_hash, dest_hash, synced_at, verified_at, deleted_at, status
         FROM files WHERE pair_id = ?1 AND status = 'quarantined' AND deleted_at IS NOT NULL AND deleted_at <= ?2",
    ).map_err(|e| e.to_string())?;
    let rows = stmt.query_map((pair_id, before), |row| FileRow::try_from(row)).map_err(|e| e.to_string())?;
    rows.collect::<Result<Vec<FileRow>, rusqlite::Error>>().map_err(|e| e.to_string())
}

/// `Connection::execute` of an insert into `events`. A statement that fails changes no row.
#[verifier::external_body]
fn db_insert_event(
    conn: &mut rusqlite::Connection,
    pair_id: Option<&str>,
    path: Option<&str>,
    event_type: &str,
    detail: Option<&str>,
    created_at: i64,
) -> (r: Result<usize, String>)
    ensures
        r is Ok ==> db_events(*final(conn)) == db_events(*old(conn)).push(
            (opt_str(pair_id), opt_str(path), event_type@, opt_str(detail), created_at),
        ),
        r is Err ==> db_events(*final(conn)) == db_events(*old(conn)),
        db_files(*final(conn)) == db_files(*old(conn)),
        db_pairs(*final(conn)) == db_pairs(*old(conn)),
{
    conn.execute(
        "INSERT INTO events (pair_id, path, event_type, detail, created_at) VALUES (?1, ?2, ?3, ?4, ?5)",
        (pair_id, path, event_type, detail, created_at),
    ).map_err(|e| e.to_string())
}

/// `Connection::query_row` of `SELECT COUNT(*) FROM events`.
#[verifier::external_body]
fn db_count_events(conn: &rusqlite::Connection) -> (r: Result<i64, String>)
    ensures
        r matches Ok(n) ==> n == db_events(*conn).len(),
{
    conn.query_row("SELECT COUNT(*) FROM events", (), |row| row.get(0)).map_err(|e| e.to_string())
}

/// A database failure, given by its message, as the library's error.
fn db_error(message: String) -> (r: crate::error::Error)
    ensures
        r == crate::error::Error::Db(message),
{
    crate::error::Error::Db(message)
}

/// The record that a row read from the database describes.
fn record_from_row(row: FileRow) -> (r: FileRecord)
    ensures
        reads_back(row_key(row), row_stored(row), r),
{
    let status = match FileStatus::parse(row.9.as_str()) {
        Some(s) => s,
        None => FileStatus::Error,
    };
    FileRecord {
        pair_id: row.0,
        path: row.1,
        size: row.2,
        mtime: row.3,
        source_hash: row.4,
        dest_hash: row.5,
        synced_at: row.6,
        verified_at: row.7,
        deleted_at: row.8,
        status,
    }
}

/// SQLite-backed store of sync state.
///
/// The contracts describe the tables as this store's connection sees them and change
/// them; they take the connection to be the only writer of its database while it is
/// open (another process writing the same file is not modelled).
pub struct StateStore {
    conn: rusqlite::Connection,
}

impl StateStore {
    /// The stored file rows, by `(pair_id, path)`.
    pub closed spec fn files(&self) -> Map<RowKey, StoredRow> {
        db_files(self.conn)
    }

    /// The stored folder pairs: id to (source, destination).
    pub closed spec fn pairs(&self) -> Map<Seq<char>, (Seq<char>, Seq<char>)> {
        db_pairs(self.conn)
    }

    /// The stored events, oldest first.
    pub closed spec fn events(&self) -> Seq<StoredEvent> {
        db_events(self.conn)
    }

    /// Sets up an opened database file: WAL journal, foreign keys, schema.
    /// The rows already in the file stay as they are.
    pub fn attach(conn: rusqlite::Connection) -> (r: Result<StateStore, crate::error::Error>)
        ensures
            r matches Ok(s) ==> s.files() == db_files(conn) && s.pairs() == db_pairs(conn)
                && s.events() == db_events(conn),
            r is Err ==> r->Err_0 is Db,
    {
        let mut conn = conn;
        match db_pragmas_for_file(&mut conn) {
            Ok(()) => {},
            Err(e) => return Err(db_error(e)),
        }
        match db_migrate(&mut conn) {
            Ok(()) => {},
            Err(e) => return Err(db_error(e)),
        }
        Ok(StateStore { conn })
    }

    /// A store in a private in-memory database, empty.
    pub fn open_in_memory() -> (r: Result<StateStore, crate::error::Error>)
        ensures
            r matches Ok(s) ==> s.files() == no_files() && s.pairs() == no_pairs() && s.events() == no_events(),
            r is Err ==> r->Err_0 is Db,
    {
        let mut conn = match db_open_in_memory() {
            Ok(c) => c,
            Err(e) => return Err(db_error(e)),
        };
        match db_pragmas_for_memory(&mut conn) {
            Ok(()) => {},
            Err(e) => return Err(db_error(e)),
        }
        match db_migrate(&mut conn) {
            Ok(()) => {},
            Err(e) => return Err(db_error(e)),
        }
        Ok(StateStore { conn })
    }

    /// Records (or updates) a folder pair.
    pub fn upsert_pair(&mut self, id: &str, source: &str, destination: &str) -> (r: Result<(), crate::error::Error>)
        ensures
            r is Ok ==> final(self).pairs() == old(self).pairs().insert(id@, (source@, destination@)),
            r is Err ==> final(self).pairs() == old(self).pairs(),
            r is Err ==> r->Err_0 is Db,
            final(self).files() == old(self).files(),
            final(self).events() == old(self).events(),
    {
        match db_upsert_pair(&mut self.conn, id, source, destination) {
            Ok(_) => Ok(()),
            Err(e) => Err(db_error(e)),
        }
    }

    /// Stores a record under its `(pair_id, path)`, replacing any earlier one.
    pub fn upsert_file(&mut self, record: &FileRecord) -> (r: Result<(), crate::error::Error>)
        ensures
            r is Ok ==> final(self).files() == old(self).files().insert(
                record_key(*record),
                record_row(*record),
            ),
            r is Err ==> final(self).files() == old(self).files(),
            r is Err ==> r->Err_0 is Db,
            final(self).pairs() == old(self).pairs(),
            final(self).events() == old(self).events(),
    {
        let status = record.status.as_str();
        match db_upsert_file(&mut self.conn, record, status) {
            Ok(_) => Ok(()),
            Err(e) => Err(db_error(e)),
        }
    }

    /// The record stored under `(pair_id, path)`, if any.
    pub fn get_file(&self, pair_id: &str, path: &str) -> (r: Result<Option<FileRecord>, crate::error::Error>)
        ensures
            r matches Ok(o) ==> match o {
                Some(rec) => self.files().contains_key((pair_id@, path@)) && reads_back(
                    (pair_id@, path@),
                    self.files()[(pair_id@, path@)],
                    rec,
                ),
                None => !self.files().contains_key((pair_id@, path@)),
            },
            r is Err ==> r->Err_0 is Db,
    {
        match db_get_file(&self.conn, pair_id, path) {
            Ok(Some(row)) => Ok(Some(record_from_row(row))),
            Ok(None) => Ok(None),
            Err(e) => Err(db_error(e)),
        }
    }

    /// The verified records of a pair whose `verified_at` is at or before `verified_before`.
    pub fn list_verified_for_retention(&self, pair_id: &str, verified_before: i64) -> (r: Result<
        Vec<FileRecord>,
        crate::error::Error,
    >)
        ensures
            r matches Ok(v) ==> records_list_exactly(
                self.files(),
                v@,
                verified_by(pair_id@, verified_before),
            ),
            r is Err ==> r->Err_0 is Db,
    {
        match db_list_verified(&self.conn, pair_id, verified_before) {
            Ok(rows) => Ok(records_from_rows(rows, Ghost(self.files()), Ghost(verified_by(pair_id@, verified_before)))),
            Err(e) => Err(db_error(e)),
        }
    }

    /// The quarantined records of a pair whose `deleted_at` is at or before `deleted_before`.
    pub fn list_quarantined(&self, pair_id: &str, deleted_before: i64) -> (r: Result<
        Vec<FileRecord>,
        crate::error::Error,
    >)
        ensures
            r matches Ok(v) ==> records_list_exactly(
                self.files(),
                v@,
                quarantined_by(pair_id@, deleted_before),
            ),
            r is Err ==> r->Err_0 is Db,
    {
        match db_list_quarantined(&self.conn, pair_id, deleted_before) {
            Ok(rows) => Ok(records_from_rows(rows, Ghost(self.files()), Ghost(quarantined_by(pair_id@, deleted_before)))),
            Err(e) => Err(db_error(e)),
        }
    }

    /// Appends an event to the log.
    pub fn log_event(
        &mut self,
        pair_id: Option<&str>,
        path: Option<&str>,
        event_type: &str,
        detail: Option<&str>,
        created_at: i64,
    ) -> (r: Result<(), crate::error::Error>)
        ensures
            r is Ok ==> final(self).events() == old(self).events().push(
                (opt_str(pair_id), opt_str(path), event_type@, opt_str(detail), created_at),
            ),
            r is Err ==> final(self).events() == old(self).events(),
            r is Err ==> r->Err_0 is Db,
            final(self).files() == old(self).files(),
            final(self).pairs() == old(self).pairs(),
    {
        match db_insert_event(&mut self.conn, pair_id, path, event_type, detail, created_at) {
            Ok(_) => Ok(()),
            Err(e) => Err(db_error(e)),
        }
    }

    /// The number of events logged.
    pub fn event_count(&self) -> (r: Result<i64, crate::error::Error>)
        ensures
            r matches Ok(n) ==> n == self.events().len(),
            r is Err ==> r->Err_0 is Db,
    {
        match db_count_events(&self.conn) {
            Ok(n) => Ok(n),
            Err(e) => Err(db_error(e)),
        }
    }

    /// The file name under which a store is kept by default.
    pub fn db_path_hint() -> (r: String)
        ensures
            r@ == "state.db"@,
    {
        String::from_str("state.db")
    }
}

/// Reads back each listed row as a record.
fn records_from_rows(
    rows: Vec<FileRow>,
    Ghost(files): Ghost<Map<RowKey, StoredRow>>,
    Ghost(pred): Ghost<spec_fn(RowKey, StoredRow) -> bool>,
) -> (out: Vec<FileRecord>)
    requires
        rows_list_exactly(files, rows@, pred),
    ensures
        records_list_exactly(files, out@, pred),
{
    let ghost all = rows@;
    let ghost n = rows@.len();
    let mut rows = rows;
    let mut out: Vec<FileRecord> = Vec::new();
    while rows.len() > 0
        invariant
            n == all.len(),
            rows@.len() + out@.len() == n,
            rows@ == all.take(rows@.len() as int),
            forall|k: int|
                0 <= k < out@.len() ==> #[trigger] record_key(out@[k]) == row_key(all[n - 1 - k])
                    && reads_back(row_key(all[n - 1 - k]), row_stored(all[n - 1 - k]), out@[k]),
        decreases rows@.len(),
    {
        let row = rows.pop().unwrap();
        assert(rows@ =~= all.take(rows@.len() as int));
        assert(row == all[n - 1 - out@.len()]);
        out.push(record_from_row(row));
    }
    proof {
        assert forall|i: int| 0 <= i < out@.len() implies {
            &&& files.contains_key(#[trigger] record_key(out@[i]))
            &&& reads_back(record_key(out@[i]), files[record_key(out@[i])], out@[i])
            &&& pred(record_key(out@[i]), files[record_key(out@[i])])
        } by {
            let j = n - 1 - i;
            assert(files.contains_key(row_key(all[j])));
        }
        assert forall|k: RowKey| #[trigger] files.contains_key(k) && pred(k, files[k]) implies exists|i: int|
            0 <= i < out@.len() && record_key(out@[i]) == k by {
            let j = choose|j: int| 0 <= j < all.len() && row_key(all[j]) == k;
            let i = n - 1 - j;
            assert(record_key(out@[i]) == k);
        }
        assert forall|i: int, j: int| 0 <= i < j < out@.len() implies record_key(out@[i]) != record_key(out@[j]) by {
            assert(record_key(out@[i]) == row_key(all[n - 1 - i]));
            assert(record_key(out@[j]) == row_key(all[n - 1 - j]));
        }
    }
    out
}

} // verus!

verus! {

/// Storing a record and then reading its key gives the record back, and the rows under
/// every other key stay as they were.
pub proof fn law_read_after_upsert(files: Map<RowKey, StoredRow>, rec: FileRecord, other: RowKey)
    ensures
        files.insert(record_key(rec), record_row(rec)).contains_key(record_key(rec)),
        reads_back(
            record_key(rec),
            files.insert(record_key(rec), record_row(rec))[record_key(rec)],
            rec,
        ),
        other != record_key(rec) ==> (files.insert(record_key(rec), record_row(rec)).contains_key(
            other,
        ) == files.contains_key(other)),
        other != record_key(rec) && files.contains_key(other) ==> files.insert(
            record_key(rec),
            record_row(rec),
        )[other] == files[other],
{
    law_status_text_round_trip(rec.status);
}

} // verus!

verus! {

/// `Debug` of an optional integer: `Some(<decimal>)` or `None`.
pub open spec fn opt_int_debug(o: Option<i64>) -> Seq<char> {
    match o {
        Some(v) => "Some("@ + crate::text::decimal_int(v as int) + ")"@,
        None => "None"@,
    }
}

/// An optional hash, or `-` when absent.
pub open spec fn hash_or_dash(o: Option<String>) -> Seq<char> {
    match o {
        Some(h) => h@,
        None => "-"@,
    }
}

/// The one-line status report of a record.
pub open spec fn status_report_text(r: FileRecord) -> Seq<char> {
    "pair="@ + r.pair_id@ + " path="@ + r.path@ + " status="@ + status_text(r.status) + " size="@
        + crate::text::decimal_int(r.size as int) + " mtime="@ + crate::text::decimal_int(r.mtime as int)
        + " source_hash="@ + hash_or_dash(r.source_hash) + " dest_hash="@ + hash_or_dash(r.dest_hash)
        + " synced_at="@ + opt_int_debug(r.synced_at) + " verified_at="@ + opt_int_debug(r.verified_at)
        + " deleted_at="@ + opt_int_debug(r.deleted_at)
}

fn append_opt_int_debug(s: &mut String, o: Option<i64>)
    ensures
        final(s)@ == old(s)@ + opt_int_debug(o),
{
    match o {
        Some(v) => {
            s.append("Some(");
            let t = crate::text::i64_text(v);
            s.append(t.as_str());
            s.append(")");
        },
        None => s.append("None"),
    }
}

fn append_hash_or_dash(s: &mut String, o: &Option<String>)
    ensures
        final(s)@ == old(s)@ + hash_or_dash(*o),
{
    match o {
        Some(h) => s.append(h.as_str()),
        None => s.append("-"),
    }
}

impl FileRecord {
    /// The one-line status report of the record, as the `status` command prints it.
    pub fn status_report(&self) -> (r: String)
        ensures
            r@ == status_report_text(*self),
    {
        let mut s = String::from_str("pair=");
        s.append(self.pair_id.as_str());
        s.append(" path=");
        s.append(self.path.as_str());
        s.append(" status=");
        s.append(self.status.as_str());
        s.append(" size=");
        let size = crate::text::i64_text(self.size);
        s.append(size.as_str());
        s.append(" mtime=");
        let mtime = crate::text::i64_text(self.mtime);
        s.append(mtime.as_str());
        s.append(" source_hash=");
        append_hash_or_dash(&mut s, &self.source_hash);
        s.append(" dest_hash=");
        append_hash_or_dash(&mut s, &self.dest_hash);
        s.append(" synced_at=");
        append_opt_int_debug(&mut s, self.synced_at);
        s.append(" verified_at=");
        append_opt_int_debug(&mut s, self.verified_at);
        s.append(" deleted_at=");
        append_opt_int_debug(&mut s, self.deleted_at);
        s
    }
}

} // verus!
