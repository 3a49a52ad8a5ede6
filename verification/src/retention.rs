//! Retention: which verified source files may be quarantined or deleted, and what that
//! does to the state store. The filesystem work is done by the caller between the steps.

use vstd::prelude::*;

use crate::config::{RetentionConfig, RetentionMode};
use crate::error::Error;
use crate::scanner::{join_rel, joins_below};
use crate::state_store::{
    FileRecord, FileStatus, StateStore, opt_str, record_key, record_row,
};
use crate::text::{decimal_int, i64_text, str_eq};

verus! {

/// Seconds in a day.
pub const SECS_PER_DAY: i64 = 86400;

/// `x` clamped to the range of `i64`.
pub open spec fn clamp_i64(x: int) -> int {
    if x > i64::MAX {
        i64::MAX as int
    } else if x < i64::MIN {
        i64::MIN as int
    } else {
        x
    }
}

/// `a - b`, saturating at the bounds of `i64` (as `i64::saturating_sub`).
pub fn saturating_sub_i64(a: i64, b: i64) -> (r: i64)
    ensures
        r == clamp_i64(a - b),
{
    let d: i128 = a as i128 - b as i128;
    if d > i64::MAX as i128 {
        i64::MAX
    } else if d < i64::MIN as i128 {
        i64::MIN
    } else {
        d as i64
    }
}

/// Length of a retention window in seconds (never saturates: at most `u32::MAX` days).
pub fn days_to_secs(days: u32) -> (r: i64)
    ensures
        r == days * 86400,
{
    (days as i64) * SECS_PER_DAY
}

/// The retention window has elapsed: at least `days` whole days (UTC seconds) since
/// `verified_at`.
pub open spec fn age_qualifies(verified_at: i64, now_unix: i64, days: u32) -> bool {
    clamp_i64(now_unix - verified_at) >= days * 86400
}

/// Evaluation of retention age against `verified_at` (UTC unix seconds).
pub fn qualifies_by_age(verified_at: i64, now_unix: i64, retention_days: u32) -> (r: bool)
    ensures
        r == age_qualifies(verified_at, now_unix, retention_days),
{
    let retention_secs = days_to_secs(retention_days);
    saturating_sub_i64(now_unix, verified_at) >= retention_secs
}

/// Result of evaluating one record.
#[derive(Debug)]
pub enum RetentionDecision {
    Qualify,
    Skip { reason: String },
}

/// The name that `Debug` gives a status.
pub open spec fn status_debug_text(s: FileStatus) -> Seq<char> {
    match s {
        FileStatus::Pending => "Pending"@,
        FileStatus::Synced => "Synced"@,
        FileStatus::Verified => "Verified"@,
        FileStatus::Quarantined => "Quarantined"@,
        FileStatus::Deleted => "Deleted"@,
        FileStatus::Error => "Error"@,
    }
}

fn status_debug_name(s: FileStatus) -> (r: &'static str)
    ensures
        r@ == status_debug_text(s),
{
    match s {
        FileStatus::Pending => "Pending",
        FileStatus::Synced => "Synced",
        FileStatus::Verified => "Verified",
        FileStatus::Quarantined => "Quarantined",
        FileStatus::Deleted => "Deleted",
        FileStatus::Error => "Error",
    }
}

/// Why a record may not be deleted yet, or `None` when it qualifies. A record
/// qualifies only when it is verified, its retention window has elapsed, the source's
/// size and mtime are those recorded at verification, and the fresh source hash equals
/// the stored destination hash.
pub open spec fn skip_reason(
    record: FileRecord,
    source_size: u64,
    source_mtime: i64,
    source_hash_hex: Seq<char>,
    now_unix: i64,
    retention_days: u32,
) -> Option<Seq<char>> {
    if record.status != FileStatus::Verified {
        Some("status is "@ + status_debug_text(record.status) + ", not verified"@)
    } else if record.verified_at is None {
        Some("verified_at is missing"@)
    } else if !age_qualifies(record.verified_at->0, now_unix, retention_days) {
        Some(
            "retention window not elapsed (verified_at="@ + decimal_int(record.verified_at->0 as int)
                + ", now="@ + decimal_int(now_unix as int) + ", days="@ + decimal_int(
                retention_days as int,
            ) + ")"@,
        )
    } else if record.size as u64 != source_size || record.mtime != source_mtime {
        Some("source size/mtime changed since verification; requires resync"@)
    } else if record.dest_hash is None {
        Some("dest_hash missing"@)
    } else if source_hash_hex != record.dest_hash->0@ {
        Some("source re-hash does not match stored dest_hash"@)
    } else {
        None
    }
}

/// `d` is the decision that `reason` describes.
pub open spec fn decides(d: RetentionDecision, reason: Option<Seq<char>>) -> bool {
    match reason {
        None => d is Qualify,
        Some(m) => d matches RetentionDecision::Skip { reason } && reason@ == m,
    }
}

/// Evaluates whether a verified record is a deletion candidate given current source metadata.
pub fn evaluate_candidate(
    record: &FileRecord,
    source_size: u64,
    source_mtime: i64,
    source_hash_hex: &str,
    now_unix: i64,
    retention_days: u32,
) -> (r: RetentionDecision)
    ensures
        decides(
            r,
            skip_reason(*record, source_size, source_mtime, source_hash_hex@, now_unix, retention_days),
        ),
{
    if record.status != FileStatus::Verified {
        let mut reason = String::from_str("status is ");
        reason.append(status_debug_name(record.status));
        reason.append(", not verified");
        return RetentionDecision::Skip { reason };
    }
    let verified_at = match record.verified_at {
        Some(v) => v,
        None => return RetentionDecision::Skip { reason: String::from_str("verified_at is missing") },
    };
    if !qualifies_by_age(verified_at, now_unix, retention_days) {
        let mut reason = String::from_str("retention window not elapsed (verified_at=");
        let v = i64_text(verified_at);
        reason.append(v.as_str());
        reason.append(", now=");
        let n = i64_text(now_unix);
        reason.append(n.as_str());
        reason.append(", days=");
        let d = i64_text(retention_days as i64);
        reason.append(d.as_str());
        reason.append(")");
        return RetentionDecision::Skip { reason };
    }
    if record.size as u64 != source_size || record.mtime != source_mtime {
        return RetentionDecision::Skip {
            reason: String::from_str("source size/mtime changed since verification; requires resync"),
        };
    }
    let dest_hash = match &record.dest_hash {
        Some(h) => h,
        None => return RetentionDecision::Skip { reason: String::from_str("dest_hash missing") },
    };
    if !str_eq(source_hash_hex, dest_hash.as_str()) {
        return RetentionDecision::Skip {
            reason: String::from_str("source re-hash does not match stored dest_hash"),
        };
    }
    RetentionDecision::Qualify
}

/// `std::time::SystemTime::now()` as whole seconds since the unix epoch, or `None` when
/// the clock is before the epoch. It depends on the clock, so nothing is stated of it.
#[verifier::external_body]
fn system_unix_secs() -> Option<u64> {
    std::time::SystemTime::now().duration_since(std::time::UNIX_EPOCH).ok().map(|d| d.as_secs())
}

/// Whole seconds since the epoch as `i64` (wrapping as `as` does), or 0 when unknown.
pub fn unix_secs_or_zero(secs: Option<u64>) -> (r: i64)
    ensures
        r == (match secs {
            Some(s) => s as i64,
            None => 0i64,
        }),
{
    match secs {
        Some(s) => s as i64,
        None => 0,
    }
}

/// The current time in unix seconds (0 if the clock is before the epoch).
pub fn now_unix() -> i64 {
    unix_secs_or_zero(system_unix_secs())
}

/// A retention policy and the instant at which it is applied.
#[derive(Debug)]
pub struct RetentionOptions {
    pub config: RetentionConfig,
    pub now_unix: i64,
}

impl Clone for RetentionOptions {
    fn clone(&self) -> (r: Self)
        ensures
            r == *self,
    {
        RetentionOptions { config: self.config.clone(), now_unix: self.now_unix }
    }
}

impl RetentionOptions {
    /// The policy applied now.
    pub fn from_config(config: RetentionConfig) -> (r: RetentionOptions)
        ensures
            r.config == config,
    {
        RetentionOptions { config, now_unix: now_unix() }
    }
}

/// Counters of a cleanup run.
#[derive(Debug, Clone, Copy)]
pub struct CleanupStats {
    pub candidates: u64,
    pub deleted_or_quarantined: u64,
    pub skipped: u64,
    pub dry_run_would_act: u64,
}

impl Default for CleanupStats {
    fn default() -> (r: Self)
        ensures
            r.candidates == 0 && r.deleted_or_quarantined == 0 && r.skipped == 0 && r.dry_run_would_act
                == 0,
    {
        CleanupStats { candidates: 0, deleted_or_quarantined: 0, skipped: 0, dry_run_would_act: 0 }
    }
}

/// Counters of a purge run.
#[derive(Debug, Clone, Copy)]
pub struct PurgeStats {
    pub purged: u64,
    pub skipped: u64,
    pub dry_run_would_act: u64,
}

impl Default for PurgeStats {
    fn default() -> (r: Self)
        ensures
            r.purged == 0 && r.skipped == 0 && r.dry_run_would_act == 0,
    {
        PurgeStats { purged: 0, skipped: 0, dry_run_would_act: 0 }
    }
}

/// The verified-at cutoff of a cleanup: records verified at or before it are listed.
/// `None` when retention is disabled, in which case the cleanup does nothing.
pub fn cleanup_cutoff(opts: &RetentionOptions) -> (r: Option<i64>)
    ensures
        !opts.config.enabled ==> r is None,
        opts.config.enabled ==> r == Some(
            clamp_i64(opts.now_unix - opts.config.retention_days * 86400) as i64,
        ),
{
    if !opts.config.enabled {
        return None;
    }
    let secs = days_to_secs(opts.config.retention_days);
    Some(saturating_sub_i64(opts.now_unix, secs))
}

/// What a cleanup found of a candidate's source file.
#[derive(Debug)]
pub enum SourceProbe {
    /// The file no longer exists.
    Absent,
    /// The file's current size, mtime and hex BLAKE3 digest.
    Present { size: u64, mtime: i64, hash_hex: String },
}

/// What a cleanup does with one candidate.
#[derive(Debug)]
pub enum CleanupStep {
    /// The source is gone: counted as skipped and audited as `skip`.
    SkipAbsent,
    /// The rules refuse it: counted as skipped, audited as `skip` with the reason, and
    /// logged as a `retention_skip` event.
    Skip { reason: String },
    /// It qualifies but the run is a dry run: counted and audited as `would_delete`.
    WouldAct,
    /// It qualifies: quarantined or deleted, counted and audited.
    Act,
}

/// The step that a cleanup takes for a candidate, given what it found of the source.
pub open spec fn cleanup_step_for(opts: RetentionOptions, record: FileRecord, probe: SourceProbe) -> spec_fn(
    CleanupStep,
) -> bool {
    |step: CleanupStep|
        match probe {
            SourceProbe::Absent => step is SkipAbsent,
            SourceProbe::Present { size, mtime, hash_hex } => match skip_reason(
                record,
                size,
                mtime,
                hash_hex@,
                opts.now_unix,
                opts.config.retention_days,
            ) {
                Some(m) => step matches CleanupStep::Skip { reason } && reason@ == m,
                None => if opts.config.dry_run {
                    step is WouldAct
                } else {
                    step is Act
                },
            },
        }
}

/// Decides what an enabled cleanup does with one candidate.
pub fn cleanup_step(opts: &RetentionOptions, record: &FileRecord, probe: &SourceProbe) -> (r:
    CleanupStep)
    requires
        opts.config.enabled,
    ensures
        (cleanup_step_for(*opts, *record, *probe))(r),
{
    match probe {
        SourceProbe::Absent => CleanupStep::SkipAbsent,
        SourceProbe::Present { size, mtime, hash_hex } => {
            match evaluate_candidate(
                record,
                *size,
                *mtime,
                hash_hex.as_str(),
                opts.now_unix,
                opts.config.retention_days,
            ) {
                RetentionDecision::Skip { reason } => CleanupStep::Skip { reason },
                RetentionDecision::Qualify => {
                    if opts.config.dry_run {
                        CleanupStep::WouldAct
                    } else {
                        CleanupStep::Act
                    }
                },
            }
        },
    }
}

/// A cleanup quarantines or deletes a source file only when retention is enabled and not
/// a dry run, the file still exists, its record is verified, its retention window has
/// elapsed, its size and mtime are unchanged since verification, and it re-hashes to
/// the stored destination hash.
pub proof fn law_cleanup_acts_only_when_safe(
    opts: RetentionOptions,
    record: FileRecord,
    probe: SourceProbe,
    step: CleanupStep,
)
    requires
        opts.config.enabled,
        (cleanup_step_for(opts, record, probe))(step),
        step is Act,
    ensures
        !opts.config.dry_run,
        probe matches SourceProbe::Present { size, mtime, hash_hex } && {
            &&& record.status == FileStatus::Verified
            &&& record.verified_at matches Some(v) && age_qualifies(
                v,
                opts.now_unix,
                opts.config.retention_days,
            )
            &&& record.size as u64 == size && record.mtime == mtime
            &&& record.dest_hash matches Some(h) && h@ == hash_hex@
        },
{
}

impl CleanupStats {
    /// Counts one step.
    pub fn count(&mut self, step: &CleanupStep)
        requires
            old(self).skipped < u64::MAX,
            old(self).dry_run_would_act < u64::MAX,
            old(self).deleted_or_quarantined < u64::MAX,
        ensures
            *final(self) == after_cleanup_step(*old(self), *step),
            final(self).candidates == old(self).candidates,
            final(self).skipped == old(self).skipped + (if step is SkipAbsent || step is Skip { 1int } else { 0 }),
            final(self).dry_run_would_act == old(self).dry_run_would_act + (if step is WouldAct { 1int } else { 0 }),
            final(self).deleted_or_quarantined == old(self).deleted_or_quarantined + (if step is Act { 1int } else { 0 }),
    {
        match step {
            CleanupStep::SkipAbsent => self.skipped = self.skipped + 1,
            CleanupStep::Skip { .. } => self.skipped = self.skipped + 1,
            CleanupStep::WouldAct => self.dry_run_would_act = self.dry_run_would_act + 1,
            CleanupStep::Act => self.deleted_or_quarantined = self.deleted_or_quarantined + 1,
        }
    }
}

/// The audit action written for a step (`mode` is the retention mode, used for `Act`).
pub open spec fn audit_action_text(step: CleanupStep, mode: RetentionMode) -> Seq<char> {
    match step {
        CleanupStep::SkipAbsent => "skip"@,
        CleanupStep::Skip { .. } => "skip"@,
        CleanupStep::WouldAct => "would_delete"@,
        CleanupStep::Act => match mode {
            RetentionMode::Quarantine => "quarantine"@,
            RetentionMode::Permanent => "permanent_delete"@,
        },
    }
}

/// The audit reason written for a step.
pub open spec fn audit_reason_text(step: CleanupStep) -> Seq<char> {
    match step {
        CleanupStep::SkipAbsent => "source file already absent"@,
        CleanupStep::Skip { reason } => reason@,
        CleanupStep::WouldAct => "passes all retention checks"@,
        CleanupStep::Act => "passes all retention checks"@,
    }
}

impl CleanupStep {
    /// The audit action of this step.
    pub fn audit_action(&self, mode: RetentionMode) -> (r: &'static str)
        ensures
            r@ == audit_action_text(*self, mode),
    {
        match self {
            CleanupStep::SkipAbsent => "skip",
            CleanupStep::Skip { .. } => "skip",
            CleanupStep::WouldAct => "would_delete",
            CleanupStep::Act => match mode {
                RetentionMode::Quarantine => "quarantine",
                RetentionMode::Permanent => "permanent_delete",
            },
        }
    }

    /// The audit reason of this step.
    pub fn audit_reason(&self) -> (r: String)
        ensures
            r@ == audit_reason_text(*self),
    {
        match self {
            CleanupStep::SkipAbsent => String::from_str("source file already absent"),
            CleanupStep::Skip { reason } => reason.clone(),
            CleanupStep::WouldAct => String::from_str("passes all retention checks"),
            CleanupStep::Act => String::from_str("passes all retention checks"),
        }
    }

    /// Whether the audit entry of this step is marked as a dry run (`dry_run` is the
    /// run's setting; acting is never a dry run and a would-act always is).
    pub fn audit_dry_run(&self, dry_run: bool) -> (r: bool)
        ensures
            r == (match *self {
                CleanupStep::WouldAct => true,
                CleanupStep::Act => false,
                _ => dry_run,
            }),
    {
        match self {
            CleanupStep::WouldAct => true,
            CleanupStep::Act => false,
            _ => dry_run,
        }
    }
}

/// Logs the `retention_skip` event of a refused candidate.
pub fn log_retention_skip(store: &mut StateStore, pair_id: &str, path: &str, reason: &str, now: i64) -> (r:
    Result<(), Error>)
    ensures
        r is Ok ==> final(store).events() == old(store).events().push(
            (Some(pair_id@), Some(path@), "retention_skip"@, Some(reason@), now),
        ),
        r is Err ==> final(store).events() == old(store).events(),
        r is Err ==> r->Err_0 is Db,
        final(store).files() == old(store).files(),
        final(store).pairs() == old(store).pairs(),
{
    store.log_event(Some(pair_id), Some(path), "retention_skip", Some(reason), now)
}

/// Where quarantine moves a source file: its relative path below the quarantine
/// directory. Deleting for good has no target.
pub fn deletion_target(config: &RetentionConfig, relative_path: &str) -> (r: Result<Option<String>, Error>)
    ensures
        config.mode == RetentionMode::Permanent ==> r == Ok::<Option<String>, Error>(None),
        config.mode == RetentionMode::Quarantine && config.quarantine_dir is None ==> (r matches Err(
            Error::Config(m),
        ) && m@ == "quarantine_dir required for quarantine mode"@),
        config.mode == RetentionMode::Quarantine && config.quarantine_dir is Some ==> (r matches Ok(
            Some(t),
        ) && joins_below(config.quarantine_dir->0@, relative_path@, t@)),
{
    match config.mode {
        RetentionMode::Quarantine => match &config.quarantine_dir {
            Some(qdir) => Ok(Some(join_rel(qdir.as_str(), relative_path))),
            None => Err(Error::Config(String::from_str("quarantine_dir required for quarantine mode"))),
        },
        RetentionMode::Permanent => Ok(None),
    }
}

/// The record of a file after quarantine or deletion at `now`.
pub open spec fn removed_record(record: FileRecord, mode: RetentionMode, now: i64) -> FileRecord {
    FileRecord {
        status: match mode {
            RetentionMode::Quarantine => FileStatus::Quarantined,
            RetentionMode::Permanent => FileStatus::Deleted,
        },
        deleted_at: Some(now),
        ..record
    }
}

/// Records that a source file was quarantined (to `target`) or deleted: the record
/// gets the new status and `deleted_at = now`, and a `quarantined` (detail: the target)
/// or `deleted` event is logged.
pub fn commit_deletion(
    store: &mut StateStore,
    pair_id: &str,
    record: &FileRecord,
    mode: RetentionMode,
    target: Option<&str>,
    now: i64,
) -> (r: Result<(), Error>)
    ensures
        r is Ok ==> final(store).files() == old(store).files().insert(
            record_key(*record),
            record_row(removed_record(*record, mode, now)),
        ),
        r is Ok ==> final(store).events() == old(store).events().push(
            (
                Some(pair_id@),
                Some(record.path@),
                match mode {
                    RetentionMode::Quarantine => "quarantined"@,
                    RetentionMode::Permanent => "deleted"@,
                },
                match mode {
                    RetentionMode::Quarantine => opt_str(target),
                    RetentionMode::Permanent => None,
                },
                now,
            ),
        ),
        r is Err ==> r->Err_0 is Db,
        r is Err ==> final(store).events() == old(store).events(),
        r is Err ==> (final(store).files() == old(store).files() || final(store).files() == old(store).files().insert(
            record_key(*record),
            record_row(removed_record(*record, mode, now)),
        )),
        final(store).pairs() == old(store).pairs(),
{
    let mut updated = record.clone();
    match mode {
        RetentionMode::Quarantine => updated.status = FileStatus::Quarantined,
        RetentionMode::Permanent => updated.status = FileStatus::Deleted,
    }
    updated.deleted_at = Some(now);
    assert(updated == removed_record(*record, mode, now));
    match store.upsert_file(&updated) {
        Ok(()) => {},
        Err(e) => return Err(e),
    }
    match mode {
        RetentionMode::Quarantine => store.log_event(
            Some(pair_id),
            Some(record.path.as_str()),
            "quarantined",
            target,
            now,
        ),
        RetentionMode::Permanent => store.log_event(
            Some(pair_id),
            Some(record.path.as_str()),
            "deleted",
            None,
            now,
        ),
    }
}

/// The deleted-at cutoff of a purge: quarantined records deleted at or before it are
/// past their grace period.
pub fn purge_cutoff(opts: &RetentionOptions) -> (r: i64)
    ensures
        r == clamp_i64(opts.now_unix - opts.config.purge_grace_days * 86400),
{
    let secs = days_to_secs(opts.config.purge_grace_days);
    saturating_sub_i64(opts.now_unix, secs)
}

/// Records that a quarantined file was purged at `now`: the record becomes `Deleted`
/// with `deleted_at = now`.
pub fn commit_purge(store: &mut StateStore, record: &FileRecord, now: i64) -> (r: Result<(), Error>)
    ensures
        r is Ok ==> final(store).files() == old(store).files().insert(
            record_key(*record),
            record_row(removed_record(*record, RetentionMode::Permanent, now)),
        ),
        r is Err ==> final(store).files() == old(store).files(),
        r is Err ==> r->Err_0 is Db,
        final(store).events() == old(store).events(),
        final(store).pairs() == old(store).pairs(),
{
    let mut updated = record.clone();
    updated.status = FileStatus::Deleted;
    updated.deleted_at = Some(now);
    assert(updated == removed_record(*record, RetentionMode::Permanent, now));
    store.upsert_file(&updated)
}

/// What a purge does with the quarantined records past their grace period.
#[derive(Debug, Clone, Copy)]
pub enum PurgeStep {
    /// No quarantine directory is configured: nothing is purged, counted or audited.
    SkipAll,
    /// A dry run: each record is counted and audited as `would_purge`, nothing removed.
    WouldPurge,
    /// Each record's file is removed, the record marked deleted, counted and audited
    /// as `purge`.
    Purge,
}

/// The purge step that a retention policy calls for.
pub open spec fn purge_step_for(config: RetentionConfig) -> PurgeStep {
    if config.quarantine_dir is None {
        PurgeStep::SkipAll
    } else if config.dry_run {
        PurgeStep::WouldPurge
    } else {
        PurgeStep::Purge
    }
}

/// Decides what a purge does: skip everything without a quarantine directory, only
/// count and audit on a dry run, purge otherwise.
pub fn purge_step(config: &RetentionConfig) -> (r: PurgeStep)
    ensures
        r == purge_step_for(*config),
        config.quarantine_dir is None ==> r is SkipAll,
        config.quarantine_dir is Some && config.dry_run ==> r is WouldPurge,
        config.quarantine_dir is Some && !config.dry_run ==> r is Purge,
{
    match &config.quarantine_dir {
        None => PurgeStep::SkipAll,
        Some(_) => {
            if config.dry_run {
                PurgeStep::WouldPurge
            } else {
                PurgeStep::Purge
            }
        },
    }
}

/// The audit action of a purge step (`None` for `SkipAll`, which audits nothing).
pub open spec fn purge_audit_action_text(step: PurgeStep) -> Option<Seq<char>> {
    match step {
        PurgeStep::SkipAll => None,
        PurgeStep::WouldPurge => Some("would_purge"@),
        PurgeStep::Purge => Some("purge"@),
    }
}

impl PurgeStep {
    /// The audit action of this step, if it audits anything.
    pub fn audit_action(&self) -> (r: Option<&'static str>)
        ensures
            match r {
                Some(a) => purge_audit_action_text(*self) == Some(a@),
                None => purge_audit_action_text(*self) is None,
            },
    {
        match self {
            PurgeStep::SkipAll => None,
            PurgeStep::WouldPurge => Some("would_purge"),
            PurgeStep::Purge => Some("purge"),
        }
    }

    /// Whether the audit entry of this step is marked as a dry run.
    pub fn audit_dry_run(&self) -> (r: bool)
        ensures
            r == (*self is WouldPurge),
    {
        match self {
            PurgeStep::WouldPurge => true,
            _ => false,
        }
    }
}

/// The audit reason of every purged (or would-be purged) record.
pub fn purge_audit_reason() -> (r: String)
    ensures
        r@ == "past purge grace period"@,
{
    String::from_str("past purge grace period")
}

impl PurgeStats {
    /// Counts one record handled by `step`.
    pub fn count(&mut self, step: PurgeStep)
        requires
            old(self).purged < u64::MAX,
            old(self).dry_run_would_act < u64::MAX,
        ensures
            *final(self) == after_purge_step(*old(self), step),
            final(self).skipped == old(self).skipped,
            final(self).purged == old(self).purged + (if step is Purge { 1int } else { 0 }),
            final(self).dry_run_would_act == old(self).dry_run_would_act + (if step is WouldPurge { 1int } else { 0 }),
    {
        match step {
            PurgeStep::SkipAll => {},
            PurgeStep::WouldPurge => self.dry_run_would_act = self.dry_run_would_act + 1,
            PurgeStep::Purge => self.purged = self.purged + 1,
        }
    }
}

} // verus!

verus! {

/// A dry run never quarantines or deletes anything.
pub proof fn law_dry_run_never_acts(
    opts: RetentionOptions,
    record: FileRecord,
    probe: SourceProbe,
    step: CleanupStep,
)
    requires
        opts.config.dry_run,
        (cleanup_step_for(opts, record, probe))(step),
    ensures
        !(step is Act),
{
}

/// A dry-run purge only counts and audits: it never removes a file or changes a record.
pub proof fn law_dry_run_never_purges(config: RetentionConfig)
    requires
        config.dry_run,
    ensures
        !(purge_step_for(config) is Purge),
{
}

/// A record that is not verified is never a deletion candidate, whatever the source.
pub proof fn law_unverified_never_qualifies(
    record: FileRecord,
    source_size: u64,
    source_mtime: i64,
    source_hash_hex: Seq<char>,
    now_unix: i64,
    retention_days: u32,
)
    requires
        record.status != FileStatus::Verified,
    ensures
        skip_reason(record, source_size, source_mtime, source_hash_hex, now_unix, retention_days) is Some,
{
}

/// A file quarantined at `now` is not past a grace period of at least one day: a purge
/// at the same instant does not list it.
pub proof fn law_fresh_quarantine_not_purged(record: FileRecord, opts: RetentionOptions)
    requires
        opts.config.purge_grace_days >= 1,
        opts.now_unix > i64::MIN,
    ensures
        !(crate::state_store::quarantined_by(
            record.pair_id@,
            clamp_i64(opts.now_unix - opts.config.purge_grace_days * 86400) as i64,
        ))(
            record_key(removed_record(record, RetentionMode::Quarantine, opts.now_unix)),
            record_row(removed_record(record, RetentionMode::Quarantine, opts.now_unix)),
        ),
{
}

} // verus!

verus! {

/// Every candidate that an enabled cleanup lists (verified at or before its cutoff) is
/// old enough for the age rule, unless the cutoff had to saturate at `i64::MIN`.
pub proof fn law_listed_candidates_are_old_enough(opts: RetentionOptions, verified_at: i64)
    requires
        opts.config.enabled,
        opts.now_unix - opts.config.retention_days * 86400 >= i64::MIN,
        verified_at <= clamp_i64(opts.now_unix - opts.config.retention_days * 86400),
    ensures
        age_qualifies(verified_at, opts.now_unix, opts.config.retention_days),
{
}

} // verus!

verus! {

/// The cleanup counters after one more step is counted.
pub open spec fn after_cleanup_step(s: CleanupStats, step: CleanupStep) -> CleanupStats {
    match step {
        CleanupStep::SkipAbsent => CleanupStats { skipped: (s.skipped + 1) as u64, ..s },
        CleanupStep::Skip { .. } => CleanupStats { skipped: (s.skipped + 1) as u64, ..s },
        CleanupStep::WouldAct => CleanupStats { dry_run_would_act: (s.dry_run_would_act + 1) as u64, ..s },
        CleanupStep::Act => CleanupStats { deleted_or_quarantined: (s.deleted_or_quarantined + 1) as u64, ..s },
    }
}

/// The cleanup counters after `steps` are counted in order.
pub open spec fn after_cleanup_steps(s: CleanupStats, steps: Seq<CleanupStep>) -> CleanupStats
    decreases steps.len(),
{
    if steps.len() == 0 {
        s
    } else {
        after_cleanup_step(after_cleanup_steps(s, steps.drop_last()), steps.last())
    }
}

/// A candidate qualifies for deletion: its source is present and no rule refuses it.
pub open spec fn candidate_qualifies(opts: RetentionOptions, record: FileRecord, probe: SourceProbe) -> bool {
    match probe {
        SourceProbe::Absent => false,
        SourceProbe::Present { size, mtime, hash_hex } => skip_reason(
            record,
            size,
            mtime,
            hash_hex@,
            opts.now_unix,
            opts.config.retention_days,
        ) is None,
    }
}

/// How many of the candidates qualify.
pub open spec fn qualifying_count(opts: RetentionOptions, records: Seq<FileRecord>, probes: Seq<SourceProbe>) -> nat
    decreases records.len(),
{
    if records.len() == 0 {
        0
    } else {
        qualifying_count(opts, records.drop_last(), probes.drop_last()) + if candidate_qualifies(
            opts,
            records.last(),
            probes.last(),
        ) {
            1nat
        } else {
            0nat
        }
    }
}

/// The counters of a cleanup run whose candidates, in order, took `steps`.
pub open spec fn cleanup_run_stats(steps: Seq<CleanupStep>) -> CleanupStats {
    after_cleanup_steps(
        CleanupStats {
            candidates: steps.len() as u64,
            deleted_or_quarantined: 0,
            skipped: 0,
            dry_run_would_act: 0,
        },
        steps,
    )
}

proof fn lemma_cleanup_run(
    opts: RetentionOptions,
    records: Seq<FileRecord>,
    probes: Seq<SourceProbe>,
    steps: Seq<CleanupStep>,
    n: u64,
)
    requires
        records.len() == steps.len(),
        probes.len() == steps.len(),
        steps.len() <= n,
        forall|i: int| #![trigger steps[i]] 0 <= i < steps.len() ==> (cleanup_step_for(opts, records[i], probes[i]))(steps[i]),
    ensures
        ({
            let s = after_cleanup_steps(
                CleanupStats { candidates: n, deleted_or_quarantined: 0, skipped: 0, dry_run_would_act: 0 },
                steps,
            );
            &&& s.candidates == n
            &&& s.skipped + s.dry_run_would_act + s.deleted_or_quarantined == steps.len()
            &&& s.dry_run_would_act + s.deleted_or_quarantined == qualifying_count(opts, records, probes)
            &&& opts.config.dry_run ==> s.deleted_or_quarantined == 0
            &&& !opts.config.dry_run ==> s.dry_run_would_act == 0
        }),
    decreases steps.len(),
{
    if steps.len() > 0 {
        let k = steps.len() - 1;
        let r2 = records.drop_last();
        let p2 = probes.drop_last();
        let s2 = steps.drop_last();
        assert forall|i: int| #![trigger s2[i]] 0 <= i < s2.len() implies (cleanup_step_for(opts, r2[i], p2[i]))(s2[i]) by {
            assert(s2[i] == steps[i]);
        }
        lemma_cleanup_run(opts, r2, p2, s2, n);
        assert((cleanup_step_for(opts, records[k], probes[k]))(steps[k]));
        assert(records.last() == records[k] && probes.last() == probes[k] && steps.last() == steps[k]);
    }
}

/// The counters of a cleanup run add up: each candidate is counted once, as skipped,
/// as a would-act of a dry run or as acted on; the would-acts and acts are exactly the
/// qualifying candidates; a dry run acts on none, and a live run has no would-acts.
pub proof fn law_cleanup_accounting(
    opts: RetentionOptions,
    records: Seq<FileRecord>,
    probes: Seq<SourceProbe>,
    steps: Seq<CleanupStep>,
)
    requires
        opts.config.enabled,
        records.len() == steps.len(),
        probes.len() == steps.len(),
        steps.len() <= u64::MAX,
        forall|i: int| #![trigger steps[i]] 0 <= i < steps.len() ==> (cleanup_step_for(opts, records[i], probes[i]))(steps[i]),
    ensures
        cleanup_run_stats(steps).candidates == steps.len(),
        cleanup_run_stats(steps).skipped + cleanup_run_stats(steps).dry_run_would_act + cleanup_run_stats(
            steps,
        ).deleted_or_quarantined == cleanup_run_stats(steps).candidates,
        opts.config.dry_run ==> cleanup_run_stats(steps).deleted_or_quarantined == 0 && cleanup_run_stats(
            steps,
        ).dry_run_would_act == qualifying_count(opts, records, probes),
        !opts.config.dry_run ==> cleanup_run_stats(steps).dry_run_would_act == 0 && cleanup_run_stats(
            steps,
        ).deleted_or_quarantined == qualifying_count(opts, records, probes),
{
    lemma_cleanup_run(opts, records, probes, steps, steps.len() as u64);
}

/// The purge counters after one more record is counted under `step`.
pub open spec fn after_purge_step(s: PurgeStats, step: PurgeStep) -> PurgeStats {
    match step {
        PurgeStep::SkipAll => s,
        PurgeStep::WouldPurge => PurgeStats { dry_run_would_act: (s.dry_run_would_act + 1) as u64, ..s },
        PurgeStep::Purge => PurgeStats { purged: (s.purged + 1) as u64, ..s },
    }
}

/// The purge counters after `n` records are counted under `step`.
pub open spec fn after_purge_steps(s: PurgeStats, step: PurgeStep, n: nat) -> PurgeStats
    decreases n,
{
    if n == 0 {
        s
    } else {
        after_purge_step(after_purge_steps(s, step, (n - 1) as nat), step)
    }
}

/// The counters of a purge of `n` listed records under `config`: nothing is counted
/// without a quarantine directory; otherwise each record is counted under the policy's
/// step.
pub open spec fn purge_run_stats(config: RetentionConfig, n: nat) -> PurgeStats {
    let zero = PurgeStats { purged: 0, skipped: 0, dry_run_would_act: 0 };
    if config.quarantine_dir is None {
        zero
    } else {
        after_purge_steps(zero, purge_step_for(config), n)
    }
}

proof fn lemma_purge_steps(step: PurgeStep, n: nat)
    requires
        n <= u64::MAX,
    ensures
        ({
            let s = after_purge_steps(PurgeStats { purged: 0, skipped: 0, dry_run_would_act: 0 }, step, n);
            &&& s.skipped == 0
            &&& s.purged == (if step is Purge { n } else { 0 })
            &&& s.dry_run_would_act == (if step is WouldPurge { n } else { 0 })
        }),
    decreases n,
{
    if n > 0 {
        lemma_purge_steps(step, (n - 1) as nat);
    }
}

/// The counters of a purge add up: with a quarantine directory every listed record is
/// counted once, as purged or, on a dry run, as would-purge; a dry run purges nothing;
/// without a quarantine directory nothing is counted.
pub proof fn law_purge_accounting(config: RetentionConfig, n: nat)
    requires
        n <= u64::MAX,
    ensures
        purge_run_stats(config, n).skipped == 0,
        purge_run_stats(config, n).purged + purge_run_stats(config, n).dry_run_would_act == (if config.quarantine_dir is Some {
            n
        } else {
            0
        }),
        config.dry_run ==> purge_run_stats(config, n).purged == 0,
        !config.dry_run ==> purge_run_stats(config, n).dry_run_would_act == 0,
{
    lemma_purge_steps(purge_step_for(config), n);
}

} // verus!
