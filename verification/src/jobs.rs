//! Desktop jobs: the folder session a user picked, the jobs run for it, and the
//! decisions that the job runner and the window take on plain values.

use vstd::prelude::*;

use crate::config::RetentionConfig;
use crate::state_store::{FileRecord, FileStatus};
use crate::text::{chars_of, is_blank, is_white_space, string_of};

verus! {

/// A source folder and the destination it is copied to.
#[derive(Debug)]
pub struct FolderSession {
    pub source: String,
    pub destination: String,
}

impl Clone for FolderSession {
    fn clone(&self) -> (r: Self)
        ensures
            r == *self,
    {
        FolderSession { source: self.source.clone(), destination: self.destination.clone() }
    }
}

/// Work that the job runner does for a session.
#[derive(Debug)]
pub enum Job {
    Sync(FolderSession),
    Status(FolderSession),
    Cleanup { session: FolderSession, force_dry_run: bool, force_enabled: bool },
    Purge { session: FolderSession, force_dry_run: bool },
}

/// What the job runner reports back.
#[derive(Debug)]
pub enum JobEvent {
    Log(String),
    Done { ok: bool },
}

/// `t` is `s` without its leading and trailing white space.
pub open spec fn is_trim_of(s: Seq<char>, t: Seq<char>) -> bool {
    exists|a: int, b: int|
        0 <= a <= b <= s.len() && t == s.subrange(a, b) && (forall|k: int|
            0 <= k < a ==> is_white_space(#[trigger] s[k])) && (forall|k: int|
            b <= k < s.len() ==> is_white_space(#[trigger] s[k])) && (a < b ==> !is_white_space(
            s[a],
        ) && !is_white_space(s[b - 1]))
}

/// `str::trim`: the text without leading and trailing white space.
pub fn trim_text(s: &str) -> (r: String)
    ensures
        is_trim_of(s@, r@),
{
    let cs = chars_of(s);
    let n = cs.len();
    let mut a: usize = 0;
    while a < n && crate::text::char_is_whitespace(cs[a])
        invariant
            n == cs@.len(),
            a <= n,
            forall|k: int| 0 <= k < a ==> is_white_space(#[trigger] cs@[k]),
        decreases n - a,
    {
        a = a + 1;
    }
    let mut b: usize = n;
    while b > a && crate::text::char_is_whitespace(cs[b - 1])
        invariant
            n == cs@.len(),
            a <= b <= n,
            forall|k: int| b <= k < n ==> is_white_space(#[trigger] cs@[k]),
        decreases b,
    {
        b = b - 1;
    }
    let mut out: Vec<char> = Vec::new();
    let mut i: usize = a;
    while i < b
        invariant
            n == cs@.len(),
            a <= i <= b <= n,
            out@ == cs@.subrange(a as int, i as int),
        decreases b - i,
    {
        out.push(cs[i]);
        assert(out@ =~= cs@.subrange(a as int, i + 1));
        i = i + 1;
    }
    let r = string_of(&out);
    assert(is_trim_of(s@, r@) && r@ == cs@.subrange(a as int, b as int)) by {
        assert(cs@ == s@);
    }
    r
}

impl FolderSession {
    /// The session of two typed-in folder paths, trimmed.
    pub fn from_inputs(source: &str, destination: &str) -> (r: FolderSession)
        ensures
            is_trim_of(source@, r.source@),
            is_trim_of(destination@, r.destination@),
    {
        FolderSession { source: trim_text(source), destination: trim_text(destination) }
    }
}

/// Both folders have been chosen: neither input is blank.
pub fn folders_ready(source: &str, destination: &str) -> (r: bool)
    ensures
        r == (!crate::text::is_blank_text(source@) && !crate::text::is_blank_text(destination@)),
{
    !is_blank(source) && !is_blank(destination)
}

/// What keeps a session from running, before its folders are looked at on disk.
pub fn session_problem(session: &FolderSession) -> (r: Option<String>)
    ensures
        session.source@.len() == 0 ==> (r matches Some(m) && m@ == "choose a source folder first"@),
        session.source@.len() > 0 && session.destination@.len() == 0 ==> (r matches Some(m) && m@
            == "choose a destination folder first"@),
        session.source@.len() > 0 && session.destination@.len() > 0 ==> r is None,
{
    if session.source.as_str().is_empty() {
        return Some(String::from_str("choose a source folder first"));
    }
    if session.destination.as_str().is_empty() {
        return Some(String::from_str("choose a destination folder first"));
    }
    None
}

/// The retention policy of a cleanup job: the pair's policy, enabled when forced and
/// made a dry run when forced.
pub fn cleanup_retention(retention: RetentionConfig, force_enabled: bool, force_dry_run: bool) -> (r:
    RetentionConfig)
    ensures
        r == (RetentionConfig {
            enabled: retention.enabled || force_enabled,
            dry_run: retention.dry_run || force_dry_run,
            ..retention
        }),
{
    let mut r = retention;
    if force_enabled {
        r.enabled = true;
    }
    if force_dry_run {
        r.dry_run = true;
    }
    r
}

/// Whether the live (not dry-run) cleanup may be started: no job is running, both
/// folders are chosen, retention is forced on for the run and the user has confirmed
/// that source files may be quarantined or deleted.
pub fn live_cleanup_allowed(busy: bool, ready: bool, force_enabled: bool, confirmed: bool) -> (r: bool)
    ensures
        r == (!busy && ready && force_enabled && confirmed),
{
    !busy && ready && force_enabled && confirmed
}

/// The notice of a cleanup job that does nothing because retention is disabled for the
/// run; `None` when the cleanup goes ahead.
pub fn cleanup_skip_notice(retention: &RetentionConfig) -> (r: Option<String>)
    ensures
        !retention.enabled ==> (r matches Some(m) && m@
            == "CLEANUP skipped: retention.enabled=false (enable Force retention in GUI)"@),
        retention.enabled ==> r is None,
{
    if retention.enabled {
        None
    } else {
        Some(String::from_str("CLEANUP skipped: retention.enabled=false (enable Force retention in GUI)"))
    }
}

/// The retention policy of a purge job: the pair's policy, made a dry run when forced.
pub fn purge_retention(retention: RetentionConfig, force_dry_run: bool) -> (r: RetentionConfig)
    ensures
        r == (RetentionConfig { dry_run: retention.dry_run || force_dry_run, ..retention }),
{
    let mut r = retention;
    if force_dry_run {
        r.dry_run = true;
    }
    r
}

/// A status job looks at this many scanned files at most.
pub const STATUS_SAMPLE_CAP: usize = 5000;

/// How many verified, other and unknown records a sample of lookups holds.
pub open spec fn status_tally(states: Seq<Option<FileRecord>>) -> (nat, nat, nat)
    decreases states.len(),
{
    if states.len() == 0 {
        (0, 0, 0)
    } else {
        let (v, o, m) = status_tally(states.drop_last());
        match states.last() {
            Some(rec) => if rec.status == FileStatus::Verified {
                (v + 1, o, m)
            } else {
                (v, o + 1, m)
            },
            None => (v, o, m + 1),
        }
    }
}

/// Counts the records of a status sample: verified, with another status, not in the store.
pub fn count_status_sample(states: &Vec<Option<FileRecord>>) -> (r: (u64, u64, u64))
    ensures
        r.0 == status_tally(states@).0,
        r.1 == status_tally(states@).1,
        r.2 == status_tally(states@).2,
        r.0 + r.1 + r.2 == states@.len(),
{
    let mut verified: u64 = 0;
    let mut other: u64 = 0;
    let mut missing: u64 = 0;
    let n = states.len();
    let mut i: usize = 0;
    while i < n
        invariant
            n == states@.len(),
            i <= n,
            verified == status_tally(states@.take(i as int)).0,
            other == status_tally(states@.take(i as int)).1,
            missing == status_tally(states@.take(i as int)).2,
            verified + other + missing == i,
        decreases n - i,
    {
        proof {
            let t = states@.take(i + 1);
            assert(t.drop_last() =~= states@.take(i as int));
            assert(t.last() == states@[i as int]);
        }
        match &states[i] {
            Some(rec) => {
                if rec.status == FileStatus::Verified {
                    verified = verified + 1;
                } else {
                    other = other + 1;
                }
            },
            None => missing = missing + 1,
        }
        i = i + 1;
    }
    assert(states@.take(n as int) =~= states@);
    (verified, other, missing)
}

/// Appends `item` and drops the oldest items beyond `cap`.
pub fn push_capped<T>(items: &mut Vec<T>, item: T, cap: usize)
    requires
        cap > 0,
    ensures
        old(items)@.len() + 1 <= cap ==> final(items)@ == old(items)@.push(item),
        old(items)@.len() + 1 > cap ==> final(items)@ == old(items)@.push(item).skip(
            old(items)@.len() + 1 - cap,
        ),
{
    let ghost all = old(items)@.push(item);
    items.push(item);
    let ghost mut dropped: int = 0;
    while items.len() > cap
        invariant
            cap > 0,
            0 <= dropped,
            items@ == all.skip(dropped),
            all.len() > cap ==> dropped <= all.len() - cap,
            all.len() <= cap ==> dropped == 0,
        decreases items@.len(),
    {
        items.remove(0);
        proof {
            dropped = dropped + 1;
        }
        assert(items@ =~= all.skip(dropped));
    }
    assert(all.len() > cap ==> dropped == all.len() - cap);
}

/// A capped buffer never holds more than its cap and always ends with the newest item.
pub proof fn law_capped_buffer<T>(before: Seq<T>, item: T, cap: nat, after: Seq<T>)
    requires
        cap > 0,
        before.len() + 1 <= cap ==> after == before.push(item),
        before.len() + 1 > cap ==> after == before.push(item).skip(before.len() + 1 - cap),
    ensures
        after.len() <= cap,
        after.len() > 0 && after.last() == item,
{
}

} // verus!

verus! {

proof fn lemma_status_tally_append(a: Seq<Option<FileRecord>>, b: Seq<Option<FileRecord>>)
    ensures
        status_tally(a + b).0 == status_tally(a).0 + status_tally(b).0,
        status_tally(a + b).1 == status_tally(a).1 + status_tally(b).1,
        status_tally(a + b).2 == status_tally(a).2 + status_tally(b).2,
    decreases b.len(),
{
    if b.len() == 0 {
        assert(a + b =~= a);
    } else {
        lemma_status_tally_append(a, b.drop_last());
        assert((a + b).drop_last() =~= a + b.drop_last());
        assert((a + b).last() == b.last());
    }
}

/// A status sample is tallied lookup by lookup: the tally of two samples together is
/// the sum of their tallies; a lookup that found no record counts as not in the
/// database, a verified record as verified, and a record with any other status as
/// other status.
pub proof fn law_status_tally_counts_each_lookup(
    a: Seq<Option<FileRecord>>,
    b: Seq<Option<FileRecord>>,
    rec: FileRecord,
)
    ensures
        status_tally(a + b).0 == status_tally(a).0 + status_tally(b).0,
        status_tally(a + b).1 == status_tally(a).1 + status_tally(b).1,
        status_tally(a + b).2 == status_tally(a).2 + status_tally(b).2,
        status_tally(seq![None::<FileRecord>]) == (0nat, 0nat, 1nat),
        rec.status == FileStatus::Verified ==> status_tally(seq![Some(rec)]) == (1nat, 0nat, 0nat),
        rec.status != FileStatus::Verified ==> status_tally(seq![Some(rec)]) == (0nat, 1nat, 0nat),
{
    lemma_status_tally_append(a, b);
    let e = Seq::<Option<FileRecord>>::empty();
    assert(status_tally(e) == (0nat, 0nat, 0nat));
    assert(seq![None::<FileRecord>].drop_last() =~= e);
    assert(seq![None::<FileRecord>].last() == None::<FileRecord>);
    assert(seq![Some(rec)].drop_last() =~= e);
    assert(seq![Some(rec)].last() == Some(rec));
}

} // verus!
