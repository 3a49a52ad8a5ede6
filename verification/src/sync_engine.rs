//! Sync decisions: which files to copy, how a copy is judged, how failures are retried,
//! and what a finished copy writes to the state store. Reading, writing and the worker
//! threads are the caller's.

use vstd::prelude::*;

use crate::config::{CompareMode, Config, PairConfig};
use crate::error::Error;
use crate::hasher::{Digest, hex_encode, hex_text};
use crate::queue::{SyncJob, job_for};
use crate::scanner::{FileAction, FileMeta, classification, classify};
use crate::state_store::{FileRecord, FileStatus, StateStore, record_key, record_row};
use crate::text::{concat2, concat3};

verus! {

/// Settings of one sync run.
#[derive(Debug, Clone, Copy)]
pub struct SyncOptions {
    pub concurrency: usize,
    pub retry_count: u32,
    pub retry_backoff_ms: u64,
    pub heartbeat_secs: u64,
    pub compare_mode: CompareMode,
}

impl SyncOptions {
    /// The settings of a pair under a configuration.
    pub fn from_config(config: &Config, pair: &PairConfig) -> (r: SyncOptions)
        ensures
            r.concurrency == (match pair.concurrency {
                Some(c) => if c == 0 { 1 } else { c },
                None => if config.defaults.concurrency == 0 { 1 } else { config.defaults.concurrency },
            }),
            r.retry_count == config.defaults.retry_count,
            r.retry_backoff_ms == config.defaults.retry_backoff_ms,
            r.heartbeat_secs == config.defaults.heartbeat_secs,
            r.compare_mode == config.defaults.compare_mode,
    {
        SyncOptions {
            concurrency: config.effective_concurrency(pair),
            retry_count: config.defaults.retry_count,
            retry_backoff_ms: config.defaults.retry_backoff_ms,
            heartbeat_secs: config.defaults.heartbeat_secs,
            compare_mode: config.defaults.compare_mode,
        }
    }

    /// Number of copy workers: the concurrency, at least one.
    pub fn worker_count(&self) -> (r: usize)
        ensures
            r == (if self.concurrency == 0 { 1 } else { self.concurrency }),
    {
        if self.concurrency == 0 {
            1
        } else {
            self.concurrency
        }
    }

    /// Capacity of the outcome channel: four per worker (saturating), at least 16.
    pub fn outcome_capacity(&self) -> (r: usize)
        ensures
            r == (if self.concurrency * 4 > usize::MAX {
                usize::MAX as int
            } else if self.concurrency * 4 < 16 {
                16int
            } else {
                self.concurrency * 4
            }),
    {
        let c = if self.concurrency > usize::MAX / 4 {
            usize::MAX
        } else {
            self.concurrency * 4
        };
        if c < 16 {
            16
        } else {
            c
        }
    }

    /// Seconds between progress reports: the heartbeat, at least one.
    pub fn heartbeat_interval(&self) -> (r: u64)
        ensures
            r == (if self.heartbeat_secs == 0 { 1 } else { self.heartbeat_secs }),
    {
        if self.heartbeat_secs == 0 {
            1
        } else {
            self.heartbeat_secs
        }
    }
}

/// Counters of a sync run.
#[derive(Debug, Clone, Copy)]
pub struct SyncStats {
    pub scanned: u64,
    pub copied: u64,
    pub skipped: u64,
    pub errors: u64,
    pub bytes_copied: u64,
}

impl Default for SyncStats {
    fn default() -> (r: Self)
        ensures
            r.scanned == 0 && r.copied == 0 && r.skipped == 0 && r.errors == 0 && r.bytes_copied == 0,
    {
        SyncStats { scanned: 0, copied: 0, skipped: 0, errors: 0, bytes_copied: 0 }
    }
}

/// What became of one copy job.
#[derive(Debug)]
pub enum CopyOutcome {
    /// The copy was written and verified.
    Copied {
        pair_id: String,
        relative_path: String,
        size: u64,
        mtime: i64,
        source_hash: String,
        dest_hash: String,
        bytes: u64,
    },
    /// The copy failed for good.
    Failed { pair_id: String, relative_path: String, size: u64, mtime: i64, message: String },
}

impl SyncStats {
    /// Counts a finished job: a copy adds one copied file and its bytes, a failure one
    /// error (both wrapping, as atomic counters do).
    pub fn record_outcome(&mut self, outcome: &CopyOutcome)
        ensures
            *final(self) == after_outcome(*old(self), *outcome),
            final(self).scanned == old(self).scanned,
            final(self).skipped == old(self).skipped,
            outcome matches CopyOutcome::Copied { bytes, .. } ==> final(self).copied as int == (
            old(self).copied as int + 1) % 0x1_0000_0000_0000_0000 && final(self).bytes_copied as int
                == (old(self).bytes_copied as int + bytes as int) % 0x1_0000_0000_0000_0000
                && final(self).errors == old(self).errors,
            outcome is Failed ==> final(self).errors as int == (old(self).errors as int + 1)
                % 0x1_0000_0000_0000_0000 && final(self).copied == old(self).copied
                && final(self).bytes_copied == old(self).bytes_copied,
    {
        match outcome {
            CopyOutcome::Copied { bytes, .. } => {
                self.copied = self.copied.wrapping_add(1);
                self.bytes_copied = self.bytes_copied.wrapping_add(*bytes);
            },
            CopyOutcome::Failed { .. } => {
                self.errors = self.errors.wrapping_add(1);
            },
        }
    }
}

/// The job for a source file, or `None` when it is unchanged and skipped.
pub fn plan_job(
    pair_id: &str,
    dest_root: &str,
    meta: &FileMeta,
    dest_meta: Option<&FileMeta>,
    state: Option<&FileRecord>,
) -> (r: Option<SyncJob>)
    ensures
        ({
            let action = classification(
                *meta,
                match dest_meta {
                    Some(d) => Some(*d),
                    None => None,
                },
                match state {
                    Some(s) => Some(*s),
                    None => None,
                },
            );
            &&& action == FileAction::Unchanged ==> r is None
            &&& action != FileAction::Unchanged ==> (r matches Some(job) && job_for(
                pair_id@,
                dest_root@,
                *meta,
                job,
            ))
        }),
{
    match classify(meta, dest_meta, state) {
        FileAction::Unchanged => None,
        _ => Some(SyncJob::from_meta(pair_id, dest_root, meta)),
    }
}

/// The outcome of a copy whose source and destination streams hashed to the given
/// digests: a verified copy when they are equal, a hash mismatch otherwise.
pub fn finish_copy(job: &SyncJob, source_digest: &Digest, dest_digest: &Digest, bytes: u64) -> (r:
    Result<CopyOutcome, Error>)
    ensures
        source_digest@ == dest_digest@ ==> (r matches Ok(
            CopyOutcome::Copied { pair_id, relative_path, size, mtime, source_hash, dest_hash, bytes: b },
        ) && pair_id == job.pair_id && relative_path == job.relative_path && size == job.size
            && mtime == job.mtime && source_hash@ == hex_text(source_digest@) && dest_hash@
            == hex_text(dest_digest@) && b == bytes),
        source_digest@ != dest_digest@ ==> (r matches Err(
            Error::HashMismatch { path, source_hash, dest_hash },
        ) && path == job.source_path && source_hash@ == hex_text(source_digest@) && dest_hash@
            == hex_text(dest_digest@)),
{
    let source_hash = hex_encode(source_digest);
    let dest_hash = hex_encode(dest_digest);
    let mut same = true;
    let mut i: usize = 0;
    while i < 32
        invariant
            i <= 32,
            source_digest@.len() == 32,
            dest_digest@.len() == 32,
            same <==> forall|k: int| 0 <= k < i ==> source_digest@[k] == dest_digest@[k],
        decreases 32 - i,
    {
        if source_digest[i] != dest_digest[i] {
            same = false;
        }
        i = i + 1;
    }
    if !same {
        assert(source_digest@ != dest_digest@);
        return Err(Error::HashMismatch { path: job.source_path.clone(), source_hash, dest_hash });
    }
    assert(source_digest@ =~= dest_digest@);
    Ok(
        CopyOutcome::Copied {
            pair_id: job.pair_id.clone(),
            relative_path: job.relative_path.clone(),
            size: job.size,
            mtime: job.mtime,
            source_hash,
            dest_hash,
            bytes,
        },
    )
}

/// The outcome of a job that failed for good with `message`.
pub fn failed_outcome(job: &SyncJob, message: String) -> (r: CopyOutcome)
    ensures
        r matches CopyOutcome::Failed { pair_id, relative_path, size, mtime, message: m } && pair_id
            == job.pair_id && relative_path == job.relative_path && size == job.size && mtime
            == job.mtime && m == message,
{
    CopyOutcome::Failed {
        pair_id: job.pair_id.clone(),
        relative_path: job.relative_path.clone(),
        size: job.size,
        mtime: job.mtime,
        message,
    }
}

/// What to do after a failed copy attempt.
#[derive(Debug, Clone, Copy, PartialEq, Eq, Structural)]
pub enum RetryStep {
    /// Give up: the job fails.
    GiveUp,
    /// Sleep `delay_ms`, then try again as attempt number `attempt`.
    Wait { attempt: u32, delay_ms: u64 },
}

/// The step after a failure of attempt number `attempt` (0 for the first attempt).
pub open spec fn retry_step_spec(attempt: int, retry_count: int, backoff_ms: int) -> RetryStep {
    if attempt + 1 > retry_count {
        RetryStep::GiveUp
    } else {
        RetryStep::Wait {
            attempt: (attempt + 1) as u32,
            delay_ms: if backoff_ms * (attempt + 1) > u64::MAX {
                u64::MAX
            } else {
                (backoff_ms * (attempt + 1)) as u64
            },
        }
    }
}

/// After the `attempt`-th failure has been counted from `attempt` (0 before the first):
/// give up once more than `retry_count` attempts failed, else wait a linearly growing
/// backoff (saturating).
pub fn retry_after_failure(attempt: u32, retry_count: u32, backoff_ms: u64) -> (r: RetryStep)
    requires
        attempt < u32::MAX,
    ensures
        r == retry_step_spec(attempt as int, retry_count as int, backoff_ms as int),
        attempt + 1 > retry_count ==> r == RetryStep::GiveUp,
        attempt + 1 <= retry_count ==> r == (RetryStep::Wait {
            attempt: (attempt + 1) as u32,
            delay_ms: if backoff_ms * (attempt + 1) > u64::MAX {
                u64::MAX
            } else {
                (backoff_ms * (attempt + 1)) as u64
            },
        }),
{
    let next = attempt + 1;
    if next > retry_count {
        return RetryStep::GiveUp;
    }
    assert((backoff_ms as int) * (next as int) <= 0xffff_ffff_ffff_ffff * 0xffff_ffff) by (nonlinear_arith)
        requires
            backoff_ms <= 0xffff_ffff_ffff_ffff,
            next <= 0xffff_ffff,
    ;
    let product: u128 = backoff_ms as u128 * next as u128;
    let delay_ms: u64 = if product > u64::MAX as u128 {
        u64::MAX
    } else {
        product as u64
    };
    RetryStep::Wait { attempt: next, delay_ms }
}

/// A hyphenated lowercase UUID text: 36 characters, hyphens at 8, 13, 18 and 23,
/// lowercase hex digits elsewhere.
pub open spec fn is_uuid_text(s: Seq<char>) -> bool {
    &&& s.len() == 36
    &&& forall|i: int|
        0 <= i < 36 ==> if i == 8 || i == 13 || i == 18 || i == 23 {
            #[trigger] s[i] == '-'
        } else {
            ('0' <= s[i] && s[i] <= '9') || ('a' <= s[i] && s[i] <= 'f')
        }
}

/// `uuid::Uuid::new_v4()` written with `Display` (hyphenated, lowercase). The value is
/// random; only its form is stated. It panics only when the operating system's random
/// source fails, which no argument can cause or avoid.
#[verifier::external_body]
fn random_uuid_text() -> (s: String)
    ensures
        is_uuid_text(s@),
{
    uuid::Uuid::new_v4().to_string()
}

/// The name of the temporary file that a copy writes next to `file_name` before the
/// atomic rename: `.ferrisync-tmp-<uuid>-<file_name>`.
pub fn temp_file_name(file_name: &str) -> (r: String)
    ensures
        exists|u: Seq<char>| is_uuid_text(u) && r@ == ".ferrisync-tmp-"@ + u + "-"@ + file_name@,
{
    let u = random_uuid_text();
    let mut s = concat3(".ferrisync-tmp-", u.as_str(), "-");
    s.append(file_name);
    s
}

/// The record that a finished job leaves: a verified copy with both hashes and
/// `synced_at = verified_at = now`, or an error with no hashes or times.
pub open spec fn committed_record(outcome: CopyOutcome, now: i64) -> FileRecord {
    match outcome {
        CopyOutcome::Copied { pair_id, relative_path, size, mtime, source_hash, dest_hash, .. } => FileRecord {
            pair_id,
            path: relative_path,
            size: size as i64,
            mtime,
            source_hash: Some(source_hash),
            dest_hash: Some(dest_hash),
            synced_at: Some(now),
            verified_at: Some(now),
            deleted_at: None,
            status: FileStatus::Verified,
        },
        CopyOutcome::Failed { pair_id, relative_path, size, mtime, .. } => FileRecord {
            pair_id,
            path: relative_path,
            size: size as i64,
            mtime,
            source_hash: None,
            dest_hash: None,
            synced_at: None,
            verified_at: None,
            deleted_at: None,
            status: FileStatus::Error,
        },
    }
}

/// The event that a finished job logs.
pub open spec fn committed_event(outcome: CopyOutcome, now: i64) -> crate::state_store::StoredEvent {
    match outcome {
        CopyOutcome::Copied { pair_id, relative_path, .. } => (
            Some(pair_id@),
            Some(relative_path@),
            "verified"@,
            None,
            now,
        ),
        CopyOutcome::Failed { pair_id, relative_path, message, .. } => (
            Some(pair_id@),
            Some(relative_path@),
            "error"@,
            Some(message@),
            now,
        ),
    }
}

/// Writes a finished job to the store: its record, then its event.
pub fn commit_outcome(store: &mut StateStore, outcome: CopyOutcome, now: i64) -> (r: Result<(), Error>)
    ensures
        r is Ok ==> final(store).files() == old(store).files().insert(
            record_key(committed_record(outcome, now)),
            record_row(committed_record(outcome, now)),
        ),
        r is Ok ==> final(store).events() == old(store).events().push(committed_event(outcome, now)),
        r is Err ==> r->Err_0 is Db,
        r is Err ==> final(store).events() == old(store).events(),
        r is Err ==> (final(store).files() == old(store).files() || final(store).files() == old(store).files().insert(
            record_key(committed_record(outcome, now)),
            record_row(committed_record(outcome, now)),
        )),
        final(store).pairs() == old(store).pairs(),
{
    let ghost g = outcome;
    match outcome {
        CopyOutcome::Copied { pair_id, relative_path, size, mtime, source_hash, dest_hash, .. } => {
            let record = FileRecord {
                pair_id,
                path: relative_path,
                size: size as i64,
                mtime,
                source_hash: Some(source_hash),
                dest_hash: Some(dest_hash),
                synced_at: Some(now),
                verified_at: Some(now),
                deleted_at: None,
                status: FileStatus::Verified,
            };
            assert(record == committed_record(g, now));
            match store.upsert_file(&record) {
                Ok(()) => {},
                Err(e) => return Err(e),
            }
            store.log_event(
                Some(record.pair_id.as_str()),
                Some(record.path.as_str()),
                "verified",
                None,
                now,
            )
        },
        CopyOutcome::Failed { pair_id, relative_path, size, mtime, message } => {
            let record = FileRecord {
                pair_id,
                path: relative_path,
                size: size as i64,
                mtime,
                source_hash: None,
                dest_hash: None,
                synced_at: None,
                verified_at: None,
                deleted_at: None,
                status: FileStatus::Error,
            };
            assert(record == committed_record(g, now));
            match store.upsert_file(&record) {
                Ok(()) => {},
                Err(e) => return Err(e),
            }
            store.log_event(
                Some(record.pair_id.as_str()),
                Some(record.path.as_str()),
                "error",
                Some(message.as_str()),
                now,
            )
        },
    }
}

/// The record of a file to re-verify, or an error when the store has none.
pub fn require_record(record: Option<FileRecord>, relative_path: &str) -> (r: Result<FileRecord, Error>)
    ensures
        record matches Some(rec) ==> r == Ok::<FileRecord, Error>(rec),
        record is None ==> (r matches Err(Error::Other(m)) && m@ == "no state for "@ + relative_path@),
{
    match record {
        Some(rec) => Ok(rec),
        None => Err(Error::Other(concat2("no state for ", relative_path))),
    }
}

/// A stored copy still verifies when the fresh destination hash equals the stored
/// destination hash, the fresh source hash equals the stored source hash, and the two
/// fresh hashes are equal.
pub open spec fn still_verified(record: FileRecord, dest_hash: Seq<char>, source_hash: Seq<char>) -> bool {
    &&& record.dest_hash matches Some(d) && d@ == dest_hash
    &&& record.source_hash matches Some(s) && s@ == source_hash
    &&& source_hash == dest_hash
}

/// Compares fresh hashes of the destination and source with a record.
pub fn hashes_match_record(record: &FileRecord, dest_hash: &str, source_hash: &str) -> (r: bool)
    ensures
        r == still_verified(*record, dest_hash@, source_hash@),
        r ==> (record.source_hash matches Some(s) && s@ == source_hash@),
        r ==> (record.dest_hash matches Some(d) && d@ == dest_hash@),
        r ==> source_hash@ == dest_hash@,
{
    let dest_ok = match &record.dest_hash {
        Some(d) => crate::text::str_eq(dest_hash, d.as_str()),
        None => false,
    };
    let source_ok = match &record.source_hash {
        Some(s) => crate::text::str_eq(source_hash, s.as_str()),
        None => false,
    };
    dest_ok && source_ok && crate::text::str_eq(source_hash, dest_hash)
}

/// A copy that `finish_copy` accepted and `commit_outcome` stored leaves a verified
/// record whose source and destination hashes are equal.
pub proof fn law_committed_copy_is_verified(
    job: SyncJob,
    digest: Seq<u8>,
    outcome: CopyOutcome,
    now: i64,
)
    requires
        (outcome matches CopyOutcome::Copied { source_hash, dest_hash, .. } && source_hash@ == hex_text(
            digest,
        ) && dest_hash@ == hex_text(digest)),
    ensures
        committed_record(outcome, now).status == FileStatus::Verified,
        committed_record(outcome, now).verified_at == Some(now),
        (committed_record(outcome, now).source_hash matches Some(s) && committed_record(
            outcome,
            now,
        ).dest_hash matches Some(d) && s@ == d@),
{
}

} // verus!

verus! {

/// A copy that failed (a hash mismatch included) leaves an `Error` record, which
/// retention never treats as a deletion candidate.
pub proof fn law_failed_copy_never_deleted(
    outcome: CopyOutcome,
    now: i64,
    source_size: u64,
    source_mtime: i64,
    source_hash_hex: Seq<char>,
    later: i64,
    retention_days: u32,
)
    requires
        outcome is Failed,
    ensures
        committed_record(outcome, now).status == FileStatus::Error,
        crate::retention::skip_reason(
            committed_record(outcome, now),
            source_size,
            source_mtime,
            source_hash_hex,
            later,
            retention_days,
        ) is Some,
{
}

} // verus!

verus! {

/// `x` reduced to a `u64`, wrapping as the run's counters do.
pub open spec fn wrap64(x: int) -> u64 {
    (x % 0x1_0000_0000_0000_0000) as u64
}

/// The counters after one finished job is counted: a copy adds one copied file and its
/// bytes, a failure one error.
pub open spec fn after_outcome(s: SyncStats, o: CopyOutcome) -> SyncStats {
    match o {
        CopyOutcome::Copied { bytes, .. } => SyncStats {
            copied: wrap64(s.copied + 1),
            bytes_copied: wrap64(s.bytes_copied + bytes),
            ..s
        },
        CopyOutcome::Failed { .. } => SyncStats { errors: wrap64(s.errors + 1), ..s },
    }
}

/// The counters after the finished jobs `os` are counted in order.
pub open spec fn after_outcomes(s: SyncStats, os: Seq<CopyOutcome>) -> SyncStats
    decreases os.len(),
{
    if os.len() == 0 {
        s
    } else {
        after_outcome(after_outcomes(s, os.drop_last()), os.last())
    }
}

/// How many of `os` are verified copies.
pub open spec fn copied_count(os: Seq<CopyOutcome>) -> nat
    decreases os.len(),
{
    if os.len() == 0 {
        0
    } else {
        copied_count(os.drop_last()) + if os.last() is Copied { 1nat } else { 0nat }
    }
}

/// The bytes of the verified copies among `os`.
pub open spec fn copied_bytes(os: Seq<CopyOutcome>) -> nat
    decreases os.len(),
{
    if os.len() == 0 {
        0
    } else {
        copied_bytes(os.drop_last()) + match os.last() {
            CopyOutcome::Copied { bytes, .. } => bytes as nat,
            CopyOutcome::Failed { .. } => 0nat,
        }
    }
}

/// How many scanned files classify as unchanged (and are skipped) against their
/// destination copies and records.
pub open spec fn unchanged_count(
    metas: Seq<FileMeta>,
    dests: Seq<Option<FileMeta>>,
    states: Seq<Option<FileRecord>>,
) -> nat
    decreases metas.len(),
{
    if metas.len() == 0 {
        0
    } else {
        unchanged_count(metas.drop_last(), dests.drop_last(), states.drop_last()) + if classification(
            metas.last(),
            dests.last(),
            states.last(),
        ) == FileAction::Unchanged {
            1nat
        } else {
            0nat
        }
    }
}

/// The counters of a sync run: the scanned files, those skipped as unchanged, then the
/// finished jobs counted one by one.
pub open spec fn run_stats(
    metas: Seq<FileMeta>,
    dests: Seq<Option<FileMeta>>,
    states: Seq<Option<FileRecord>>,
    outcomes: Seq<CopyOutcome>,
) -> SyncStats {
    after_outcomes(
        SyncStats {
            scanned: metas.len() as u64,
            skipped: unchanged_count(metas, dests, states) as u64,
            copied: 0,
            errors: 0,
            bytes_copied: 0,
        },
        outcomes,
    )
}

proof fn lemma_unchanged_count_bound(
    metas: Seq<FileMeta>,
    dests: Seq<Option<FileMeta>>,
    states: Seq<Option<FileRecord>>,
)
    ensures
        unchanged_count(metas, dests, states) <= metas.len(),
    decreases metas.len(),
{
    if metas.len() > 0 {
        lemma_unchanged_count_bound(metas.drop_last(), dests.drop_last(), states.drop_last());
    }
}

proof fn lemma_after_outcomes(s: SyncStats, os: Seq<CopyOutcome>)
    requires
        s.copied == 0 && s.errors == 0 && s.bytes_copied == 0,
        os.len() <= u64::MAX,
    ensures
        after_outcomes(s, os).scanned == s.scanned,
        after_outcomes(s, os).skipped == s.skipped,
        after_outcomes(s, os).copied == copied_count(os),
        after_outcomes(s, os).errors == os.len() - copied_count(os),
        after_outcomes(s, os).bytes_copied == copied_bytes(os) % 0x1_0000_0000_0000_0000,
        copied_count(os) <= os.len(),
    decreases os.len(),
{
    if os.len() > 0 {
        let init = os.drop_last();
        lemma_after_outcomes(s, init);
        let prev = after_outcomes(s, init);
        match os.last() {
            CopyOutcome::Copied { bytes, .. } => {
                let m: int = 0x1_0000_0000_0000_0000;
                vstd::arithmetic::div_mod::lemma_add_mod_noop(copied_bytes(init) as int, bytes as int, m);
                vstd::arithmetic::div_mod::lemma_small_mod(bytes as nat, m as nat);
                vstd::arithmetic::div_mod::lemma_mod_twice(copied_bytes(init) as int, m);
                assert(prev.bytes_copied + bytes == (copied_bytes(init) as int % m) + bytes);
                assert((prev.bytes_copied + bytes) % m == (copied_bytes(init) as int + bytes) % m);
            },
            CopyOutcome::Failed { .. } => {},
        }
    }
}

/// The counters of a sync run add up: every scanned file is either skipped as unchanged
/// or gets a job, each job ends copied or failed, and the bytes copied are those of the
/// verified copies (modulo 2^64, as the counters wrap).
pub proof fn law_sync_accounting(
    metas: Seq<FileMeta>,
    dests: Seq<Option<FileMeta>>,
    states: Seq<Option<FileRecord>>,
    outcomes: Seq<CopyOutcome>,
)
    requires
        dests.len() == metas.len(),
        states.len() == metas.len(),
        metas.len() <= u64::MAX,
        outcomes.len() + unchanged_count(metas, dests, states) == metas.len(),
    ensures
        run_stats(metas, dests, states, outcomes).scanned == metas.len(),
        run_stats(metas, dests, states, outcomes).skipped == unchanged_count(metas, dests, states),
        run_stats(metas, dests, states, outcomes).copied == copied_count(outcomes),
        run_stats(metas, dests, states, outcomes).copied + run_stats(metas, dests, states, outcomes).errors
            == metas.len() - unchanged_count(metas, dests, states),
        run_stats(metas, dests, states, outcomes).bytes_copied == copied_bytes(outcomes) % 0x1_0000_0000_0000_0000,
{
    lemma_unchanged_count_bound(metas, dests, states);
    let s0 = SyncStats {
        scanned: metas.len() as u64,
        skipped: unchanged_count(metas, dests, states) as u64,
        copied: 0,
        errors: 0,
        bytes_copied: 0,
    };
    lemma_after_outcomes(s0, outcomes);
}

} // verus!

verus! {

/// A file copied and committed in one run is skipped as unchanged by the next, as long
/// as the source is untouched and the destination copy has the source's size and mtime.
pub proof fn law_committed_copy_is_unchanged_next_run(
    source: FileMeta,
    dest: FileMeta,
    outcome: CopyOutcome,
    now: i64,
)
    requires
        source.size <= i64::MAX,
        outcome matches CopyOutcome::Copied { size, mtime, .. } && size == source.size && mtime == source.mtime,
        dest.size == source.size && dest.mtime == source.mtime,
    ensures
        classification(source, Some(dest), Some(committed_record(outcome, now))) == FileAction::Unchanged,
{
}

/// A recorded file whose destination copy has gone missing is never skipped: the next
/// run copies it like a new one.
pub proof fn law_missing_copy_is_copied_again(source: FileMeta, record: FileRecord)
    ensures
        classification(source, None, Some(record)) == FileAction::MissingOnDest,
        classification(source, None, Some(record)) != FileAction::Unchanged,
{
}

} // verus!

verus! {

/// How many attempts a job gets from attempt number `attempt` on when every attempt
/// fails: each failure either gives up or waits and tries again as the next attempt.
pub open spec fn attempts_until_give_up(attempt: int, retry_count: int, backoff_ms: int) -> nat
    decreases retry_count - attempt,
{
    match retry_step_spec(attempt, retry_count, backoff_ms) {
        RetryStep::GiveUp => 1,
        RetryStep::Wait { .. } => if attempt < retry_count {
            1 + attempts_until_give_up(attempt + 1, retry_count, backoff_ms)
        } else {
            1
        },
    }
}

proof fn lemma_attempts(attempt: int, retry_count: int, backoff_ms: int)
    requires
        0 <= attempt <= retry_count,
    ensures
        attempts_until_give_up(attempt, retry_count, backoff_ms) == retry_count - attempt + 1,
    decreases retry_count - attempt,
{
    if attempt < retry_count {
        lemma_attempts(attempt + 1, retry_count, backoff_ms);
    }
}

/// A job whose every copy attempt fails is tried exactly `retry_count + 1` times: each
/// failure but the last waits and retries as the next attempt, the `k`-th wait lasting
/// `k` backoffs (saturating), and the last gives up.
pub proof fn law_retries_then_give_up(retry_count: u32, backoff_ms: u64)
    ensures
        attempts_until_give_up(0, retry_count as int, backoff_ms as int) == retry_count + 1,
        forall|k: int|
            0 <= k < retry_count ==> #[trigger] retry_step_spec(k, retry_count as int, backoff_ms as int) == (
            RetryStep::Wait {
                attempt: (k + 1) as u32,
                delay_ms: if backoff_ms * (k + 1) > u64::MAX {
                    u64::MAX
                } else {
                    (backoff_ms * (k + 1)) as u64
                },
            }),
        retry_step_spec(retry_count as int, retry_count as int, backoff_ms as int) == RetryStep::GiveUp,
{
    lemma_attempts(0, retry_count as int, backoff_ms as int);
}

} // verus!

verus! {

/// A re-verification passes only when nothing moved: a source whose fresh hash differs
/// from its stored one, a destination whose fresh hash differs from its stored one, or
/// fresh hashes that differ from each other each fail it; a record with both hashes
/// stored, matched by equal fresh hashes, passes.
pub proof fn law_reverify_fails_on_any_change(record: FileRecord, dest_hash: Seq<char>, source_hash: Seq<char>)
    ensures
        !(record.source_hash matches Some(s) && s@ == source_hash) ==> !still_verified(
            record,
            dest_hash,
            source_hash,
        ),
        !(record.dest_hash matches Some(d) && d@ == dest_hash) ==> !still_verified(
            record,
            dest_hash,
            source_hash,
        ),
        source_hash != dest_hash ==> !still_verified(record, dest_hash, source_hash),
        (record.source_hash matches Some(s) && s@ == source_hash) && (record.dest_hash matches Some(d) && d@
            == dest_hash) && source_hash == dest_hash ==> still_verified(record, dest_hash, source_hash),
{
}

} // verus!
