//! Compare-only results: the classification of every source file, sorted by path.

use vstd::prelude::*;

use crate::scanner::{FileAction, FileMeta, classification, classify};
use crate::state_store::FileRecord;
use crate::text::chars_of;

verus! {

broadcast use vstd::seq_lib::group_seq_properties;

/// What a compare reports for a source file.
#[derive(Debug, Clone, Copy, PartialEq, Eq, Structural)]
pub enum CompareAction {
    New,
    Updated,
    Unchanged,
    MissingOnDest,
}

pub open spec fn action_of(a: FileAction) -> CompareAction {
    match a {
        FileAction::New => CompareAction::New,
        FileAction::Updated => CompareAction::Updated,
        FileAction::Unchanged => CompareAction::Unchanged,
        FileAction::MissingOnDest => CompareAction::MissingOnDest,
    }
}

pub open spec fn action_text(a: CompareAction) -> Seq<char> {
    match a {
        CompareAction::New => "new"@,
        CompareAction::Updated => "updated"@,
        CompareAction::Unchanged => "unchanged"@,
        CompareAction::MissingOnDest => "missing_on_dest"@,
    }
}

impl CompareAction {
    pub fn from_file_action(value: FileAction) -> (r: CompareAction)
        ensures
            r == action_of(value),
    {
        match value {
            FileAction::New => CompareAction::New,
            FileAction::Updated => CompareAction::Updated,
            FileAction::Unchanged => CompareAction::Unchanged,
            FileAction::MissingOnDest => CompareAction::MissingOnDest,
        }
    }

    pub fn as_str(self) -> (r: &'static str)
        ensures
            r@ == action_text(self),
    {
        match self {
            CompareAction::New => "new",
            CompareAction::Updated => "updated",
            CompareAction::Unchanged => "unchanged",
            CompareAction::MissingOnDest => "missing_on_dest",
        }
    }
}

/// One line of a compare: a source file and what it needs.
#[derive(Debug)]
pub struct CompareRow {
    pub relative_path: String,
    pub action: CompareAction,
    pub source_size: Option<u64>,
    pub dest_size: Option<u64>,
    pub source_mtime: Option<i64>,
    pub dest_mtime: Option<i64>,
}

impl Clone for CompareRow {
    fn clone(&self) -> (r: Self)
        ensures
            r == *self,
    {
        CompareRow {
            relative_path: self.relative_path.clone(),
            action: self.action,
            source_size: self.source_size,
            dest_size: self.dest_size,
            source_mtime: self.source_mtime,
            dest_mtime: self.dest_mtime,
        }
    }
}

/// The result of a compare.
#[derive(Debug)]
pub struct CompareResult {
    /// One row per source file, sorted by relative path.
    pub rows: Vec<CompareRow>,
    pub scanned: u64,
    /// Files that need copying (new, updated or missing on the destination).
    pub to_copy: u64,
    pub unchanged: u64,
}

/// The row of a source file, given its destination copy and record.
pub open spec fn row_for(source: FileMeta, dest: Option<FileMeta>, state: Option<FileRecord>) -> CompareRow {
    CompareRow {
        relative_path: source.relative_path,
        action: action_of(classification(source, dest, state)),
        source_size: Some(source.size),
        dest_size: match dest {
            Some(d) => Some(d.size),
            None => None,
        },
        source_mtime: Some(source.mtime),
        dest_mtime: match dest {
            Some(d) => Some(d.mtime),
            None => None,
        },
    }
}

/// Builds the row of a source file.
pub fn compare_row(meta: FileMeta, dest_meta: Option<&FileMeta>, state: Option<&FileRecord>) -> (r:
    CompareRow)
    ensures
        r == row_for(
            meta,
            match dest_meta {
                Some(d) => Some(*d),
                None => None,
            },
            match state {
                Some(s) => Some(*s),
                None => None,
            },
        ),
{
    let action = CompareAction::from_file_action(classify(&meta, dest_meta, state));
    let (dest_size, dest_mtime) = match dest_meta {
        Some(d) => (Some(d.size), Some(d.mtime)),
        None => (None, None),
    };
    CompareRow {
        relative_path: meta.relative_path,
        action,
        source_size: Some(meta.size),
        dest_size,
        source_mtime: Some(meta.mtime),
        dest_mtime,
    }
}

/// Lexicographic order of texts by character, compared from index `i` on.
pub open spec fn text_le_from(a: Seq<char>, b: Seq<char>, i: int) -> bool
    decreases a.len() - i,
{
    if i < 0 || i >= a.len() {
        true
    } else if i >= b.len() {
        false
    } else if a[i] != b[i] {
        a[i] < b[i]
    } else {
        text_le_from(a, b, i + 1)
    }
}

/// `a` sorts before or with `b`: the order of `str`, since UTF-8 preserves the order of
/// code points.
pub open spec fn text_le(a: Seq<char>, b: Seq<char>) -> bool {
    text_le_from(a, b, 0)
}

proof fn lemma_text_le_total(a: Seq<char>, b: Seq<char>, i: int)
    requires
        0 <= i,
    ensures
        text_le_from(a, b, i) || text_le_from(b, a, i),
    decreases a.len() - i,
{
    if i < a.len() && i < b.len() && a[i] == b[i] {
        lemma_text_le_total(a, b, i + 1);
    }
}

proof fn lemma_text_le_trans(a: Seq<char>, b: Seq<char>, c: Seq<char>, i: int)
    requires
        0 <= i,
        text_le_from(a, b, i),
        text_le_from(b, c, i),
    ensures
        text_le_from(a, c, i),
    decreases a.len() - i,
{
    if i < a.len() && i < b.len() && i < c.len() && a[i] == b[i] && b[i] == c[i] {
        lemma_text_le_trans(a, b, c, i + 1);
    }
}

/// Compares two texts in the order of [`text_le`].
pub fn path_le(a: &str, b: &str) -> (r: bool)
    ensures
        r == text_le(a@, b@),
{
    let ca = chars_of(a);
    let cb = chars_of(b);
    let mut i: usize = 0;
    while i < ca.len()
        invariant
            ca@ == a@,
            cb@ == b@,
            i <= ca@.len(),
            text_le(a@, b@) == text_le_from(a@, b@, i as int),
        decreases ca@.len() - i,
    {
        if i >= cb.len() {
            return false;
        }
        if ca[i] != cb[i] {
            return ca[i] < cb[i];
        }
        i = i + 1;
    }
    true
}

/// The rows are sorted by relative path.
pub open spec fn sorted_by_path(rows: Seq<CompareRow>) -> bool {
    forall|i: int, j: int|
        0 <= i < j < rows.len() ==> text_le(#[trigger] rows[i].relative_path@, #[trigger] rows[j].relative_path@)
}

/// Number of rows with the given action.
pub open spec fn count_action(rows: Seq<CompareRow>, a: CompareAction) -> nat
    decreases rows.len(),
{
    if rows.len() == 0 {
        0
    } else {
        count_action(rows.drop_last(), a) + if rows.last().action == a { 1nat } else { 0nat }
    }
}

/// Inserts a row after every row whose path sorts before or with it.
fn insert_sorted(sorted: &mut Vec<CompareRow>, row: CompareRow)
    requires
        sorted_by_path(old(sorted)@),
    ensures
        sorted_by_path(final(sorted)@),
        final(sorted)@.to_multiset() == old(sorted)@.to_multiset().insert(row),
{
    let mut p = sorted.len();
    while p > 0 && !path_le(sorted[p - 1].relative_path.as_str(), row.relative_path.as_str())
        invariant
            p <= sorted@.len(),
            sorted_by_path(sorted@),
            forall|k: int| p <= k < sorted@.len() ==> !text_le(#[trigger] sorted@[k].relative_path@, row.relative_path@),
        decreases p,
    {
        p = p - 1;
    }
    let ghost before = sorted@;
    proof {
        if p > 0 {
            assert(text_le(before[p - 1].relative_path@, row.relative_path@));
        }
    }
    sorted.insert(p, row);
    proof {
        let w = sorted@;
        assert(w =~= before.insert(p as int, row));
        assert forall|i: int, j: int| 0 <= i < j < w.len() implies text_le(
            #[trigger] w[i].relative_path@,
            #[trigger] w[j].relative_path@,
        ) by {
            if j < p {
                assert(w[i] == before[i] && w[j] == before[j]);
            } else if j == p {
                assert(w[i] == before[i]);
                if i < p - 1 {
                    lemma_text_le_trans(
                        before[i].relative_path@,
                        before[p - 1].relative_path@,
                        row.relative_path@,
                        0,
                    );
                }
            } else if i == p {
                assert(w[j] == before[j - 1]);
                lemma_text_le_total(before[j - 1].relative_path@, row.relative_path@, 0);
            } else if i < p {
                assert(w[i] == before[i] && w[j] == before[j - 1]);
            } else {
                assert(w[i] == before[i - 1] && w[j] == before[j - 1]);
            }
        }
    }
}

/// Sorts rows by relative path (keeping every row).
pub fn sort_rows_by_path(rows: &Vec<CompareRow>) -> (r: Vec<CompareRow>)
    ensures
        sorted_by_path(r@),
        r@.to_multiset() == rows@.to_multiset(),
{
    let mut out: Vec<CompareRow> = Vec::new();
    let n = rows.len();
    let mut i: usize = 0;
    while i < n
        invariant
            n == rows@.len(),
            i <= n,
            sorted_by_path(out@),
            out@.to_multiset() == rows@.take(i as int).to_multiset(),
        decreases n - i,
    {
        let row = rows[i].clone();
        insert_sorted(&mut out, row);
        proof {
            assert(rows@.take(i + 1) =~= rows@.take(i as int).push(rows@[i as int]));
        }
        i = i + 1;
    }
    assert(rows@.take(n as int) =~= rows@);
    out
}

/// Counts rows by action.
fn count_rows(rows: &Vec<CompareRow>) -> (r: (u64, u64))
    ensures
        r.0 == rows@.len() - count_action(rows@, CompareAction::Unchanged),
        r.1 == count_action(rows@, CompareAction::Unchanged),
{
    let mut to_copy: u64 = 0;
    let mut unchanged: u64 = 0;
    let n = rows.len();
    let mut i: usize = 0;
    while i < n
        invariant
            n == rows@.len(),
            i <= n,
            unchanged == count_action(rows@.take(i as int), CompareAction::Unchanged),
            to_copy + unchanged == i,
        decreases n - i,
    {
        proof {
            let t = rows@.take(i + 1);
            assert(t.drop_last() =~= rows@.take(i as int));
            assert(t.last() == rows@[i as int]);
        }
        if rows[i].action == CompareAction::Unchanged {
            unchanged = unchanged + 1;
        } else {
            to_copy = to_copy + 1;
        }
        i = i + 1;
    }
    assert(rows@.take(n as int) =~= rows@);
    (to_copy, unchanged)
}

impl CompareResult {
    /// The result of a compare that scanned `scanned` files and built `rows`, one per
    /// file in scan order: the rows sorted by path, and the counts of files to copy and
    /// unchanged.
    pub fn from_rows(rows: Vec<CompareRow>, scanned: u64) -> (r: CompareResult)
        ensures
            sorted_by_path(r.rows@),
            r.rows@.to_multiset() == rows@.to_multiset(),
            r.scanned == scanned,
            r.unchanged == count_action(rows@, CompareAction::Unchanged),
            r.to_copy == rows@.len() - count_action(rows@, CompareAction::Unchanged),
            r.to_copy + r.unchanged == rows@.len(),
            r.rows@.len() == rows@.len(),
    {
        let (to_copy, unchanged) = count_rows(&rows);
        let sorted = sort_rows_by_path(&rows);
        proof {
            vstd::seq_lib::to_multiset_len(sorted@);
            vstd::seq_lib::to_multiset_len(rows@);
        }
        CompareResult { rows: sorted, scanned, to_copy, unchanged }
    }
}

} // verus!
