//! File metadata, relative-path handling and the copy classification of a source file.

use vstd::prelude::*;

use crate::paths::{
    component_texts, ends_with, is_plain_name, is_portable_path, is_prefix_free_path, is_separator_choice,
    joined_by_slash, no_prefix_marks, path_components, path_push, pushed_with, slashes_for_backslashes,
};
use crate::state_store::FileRecord;
use crate::text::{chars_of, string_of};

verus! {

/// A regular file found under a root.
#[derive(Debug)]
pub struct FileMeta {
    /// Path below the root, components joined with `/`.
    pub relative_path: String,
    pub absolute_path: String,
    pub size: u64,
    /// Modification time, unix seconds.
    pub mtime: i64,
}

impl Clone for FileMeta {
    fn clone(&self) -> (r: Self)
        ensures
            r == *self,
    {
        FileMeta {
            relative_path: self.relative_path.clone(),
            absolute_path: self.absolute_path.clone(),
            size: self.size,
            mtime: self.mtime,
        }
    }
}

/// What a source file needs.
#[derive(Debug, Clone, Copy, PartialEq, Eq, Structural)]
pub enum FileAction {
    New,
    Updated,
    Unchanged,
    /// Recorded in the state but missing on the destination: copied like a new file.
    MissingOnDest,
}

/// The classification of a source file against its destination copy and its record.
/// A file is unchanged when the destination has the same size and mtime and, where a
/// record exists, the record does too.
pub open spec fn classification(
    source: FileMeta,
    dest_meta: Option<FileMeta>,
    state: Option<FileRecord>,
) -> FileAction {
    match dest_meta {
        None => if state is Some {
            FileAction::MissingOnDest
        } else {
            FileAction::New
        },
        Some(dest) => {
            let meta_matches = dest.size == source.size && dest.mtime == source.mtime;
            let state_matches = match state {
                Some(rec) => rec.size as u64 == source.size && rec.mtime == source.mtime,
                None => true,
            };
            if meta_matches && state_matches {
                FileAction::Unchanged
            } else {
                FileAction::Updated
            }
        },
    }
}

/// A source file is skipped only when its destination copy has the same size and mtime
/// and, where a record exists, the record does too; any difference in size or mtime
/// (against the destination or the record) has it copied as updated, and a missing
/// destination copy has it copied as new (or as missing, where a record exists).
pub proof fn law_classification_by_size_and_mtime(
    source: FileMeta,
    dest: FileMeta,
    state: Option<FileRecord>,
)
    ensures
        dest.size != source.size ==> classification(source, Some(dest), state) == FileAction::Updated,
        dest.mtime != source.mtime ==> classification(source, Some(dest), state) == FileAction::Updated,
        (state matches Some(rec) && (rec.size as u64 != source.size || rec.mtime != source.mtime)) ==> classification(
            source,
            Some(dest),
            state,
        ) == FileAction::Updated,
        dest.size == source.size && dest.mtime == source.mtime && (state matches Some(rec) ==> rec.size as u64
            == source.size && rec.mtime == source.mtime) ==> classification(source, Some(dest), state)
            == FileAction::Unchanged,
        classification(source, None, None) == FileAction::New,
        state is Some ==> classification(source, None, state) == FileAction::MissingOnDest,
{
}

/// Classifies whether a source file needs copying, by size and mtime and the optional state.
pub fn classify(source: &FileMeta, dest_meta: Option<&FileMeta>, state: Option<&FileRecord>) -> (r:
    FileAction)
    ensures
        dest_meta matches Some(d) && (d.size != source.size || d.mtime != source.mtime) ==> r
            == FileAction::Updated,
        dest_meta is None ==> r != FileAction::Unchanged,
        r == classification(
            *source,
            match dest_meta {
                Some(d) => Some(*d),
                None => None,
            },
            match state {
                Some(s) => Some(*s),
                None => None,
            },
        ),
{
    match dest_meta {
        None => {
            if state.is_some() {
                FileAction::MissingOnDest
            } else {
                FileAction::New
            }
        },
        Some(dest) => {
            let meta_matches = dest.size == source.size && dest.mtime == source.mtime;
            match state {
                Some(rec) => {
                    let state_matches = rec.size as u64 == source.size && rec.mtime == source.mtime;
                    if meta_matches && state_matches && (rec.status
                        == crate::state_store::FileStatus::Verified || rec.status
                        == crate::state_store::FileStatus::Synced) {
                        return FileAction::Unchanged;
                    }
                    if !meta_matches || !state_matches {
                        return FileAction::Updated;
                    }
                    FileAction::Unchanged
                },
                None => {
                    if meta_matches {
                        FileAction::Unchanged
                    } else {
                        FileAction::Updated
                    }
                },
            }
        },
    }
}

/// A `/`-separated piece that names a directory or file: not empty, `.` or `..`.
pub open spec fn is_kept_segment(p: Seq<char>) -> bool {
    p.len() > 0 && p != "."@ && p != ".."@
}

/// The kept segments of `s` from index `i` on, given the segment `cur` in progress and
/// the segments `acc` kept so far.
pub open spec fn segments_from(s: Seq<char>, i: int, cur: Seq<char>, acc: Seq<Seq<char>>) -> Seq<
    Seq<char>,
>
    decreases s.len() - i,
{
    if i < 0 || i >= s.len() {
        if is_kept_segment(cur) {
            acc.push(cur)
        } else {
            acc
        }
    } else if s[i] == '/' {
        segments_from(s, i + 1, Seq::empty(), if is_kept_segment(cur) { acc.push(cur) } else { acc })
    } else {
        segments_from(s, i + 1, cur.push(s[i]), acc)
    }
}

/// The segments of a relative path split at `/`, without empty, `.` and `..` segments.
pub open spec fn safe_segments(s: Seq<char>) -> Seq<Seq<char>> {
    segments_from(s, 0, Seq::empty(), Seq::empty())
}

/// No segment is empty, `.` or `..`, or holds a `/`.
pub open spec fn all_segments_safe(segs: Seq<Seq<char>>) -> bool {
    forall|k: int|
        0 <= k < segs.len() ==> is_kept_segment(#[trigger] segs[k]) && forall|m: int|
            0 <= m < segs[k].len() ==> segs[k][m] != '/'
}

proof fn lemma_segments_from_safe(s: Seq<char>, i: int, cur: Seq<char>, acc: Seq<Seq<char>>)
    requires
        0 <= i <= s.len(),
        all_segments_safe(acc),
        forall|m: int| 0 <= m < cur.len() ==> cur[m] != '/',
    ensures
        all_segments_safe(segments_from(s, i, cur, acc)),
    decreases s.len() - i,
{
    if i < s.len() {
        if s[i] == '/' {
            let acc2 = if is_kept_segment(cur) {
                acc.push(cur)
            } else {
                acc
            };
            assert forall|k: int| 0 <= k < acc2.len() implies is_kept_segment(#[trigger] acc2[k])
                && forall|m: int| 0 <= m < acc2[k].len() ==> acc2[k][m] != '/' by {
                if k < acc.len() {
                    assert(acc2[k] == acc[k]);
                }
            }
            lemma_segments_from_safe(s, i + 1, Seq::empty(), acc2);
        } else {
            let cur2 = cur.push(s[i]);
            assert forall|m: int| 0 <= m < cur2.len() implies cur2[m] != '/' by {
                if m < cur.len() {
                    assert(cur2[m] == cur[m]);
                }
            }
            lemma_segments_from_safe(s, i + 1, cur2, acc);
        }
    } else {
        let acc2 = if is_kept_segment(cur) {
            acc.push(cur)
        } else {
            acc
        };
        assert forall|k: int| 0 <= k < acc2.len() implies is_kept_segment(#[trigger] acc2[k])
            && forall|m: int| 0 <= m < acc2[k].len() ==> acc2[k][m] != '/' by {
            if k < acc.len() {
                assert(acc2[k] == acc[k]);
            }
        }
    }
}

/// Every segment that a relative path contributes names a directory or file below the
/// root: none is empty, `.` or `..`, and none holds a `/`. A relative path therefore
/// cannot lead out of the root it is joined to.
pub proof fn law_segments_stay_below_root(rel: Seq<char>)
    ensures
        all_segments_safe(safe_segments(rel)),
{
    lemma_segments_from_safe(rel, 0, Seq::empty(), Seq::empty());
}

pub open spec fn string_views(v: Seq<String>) -> Seq<Seq<char>> {
    v.map_values(|s: String| s@)
}

/// Splits a relative path at `/` and drops the empty, `.` and `..` segments.
pub fn rel_segments(relative_path: &str) -> (r: Vec<String>)
    ensures
        string_views(r@) == safe_segments(relative_path@),
{
    proof {
        reveal_strlit(".");
        reveal_strlit("..");
    }
    let cs = chars_of(relative_path);
    let n = cs.len();
    let mut out: Vec<String> = Vec::new();
    let mut cur: Vec<char> = Vec::new();
    let mut i: usize = 0;
    assert(string_views(out@) =~= Seq::<Seq<char>>::empty());
    assert(cur@ =~= Seq::<char>::empty());
    while i < n
        invariant
            n == cs@.len(),
            cs@ == relative_path@,
            i <= n,
            safe_segments(relative_path@) == segments_from(cs@, i as int, cur@, string_views(out@)),
        decreases n - i,
    {
        let c = cs[i];
        if c == '/' {
            if kept(&cur) {
                let ghost before = string_views(out@);
                let s = string_of(&cur);
                out.push(s);
                assert(string_views(out@) =~= before.push(cur@));
            }
            cur = Vec::new();
        } else {
            cur.push(c);
        }
        i = i + 1;
    }
    if kept(&cur) {
        let ghost before = string_views(out@);
        let s = string_of(&cur);
        out.push(s);
        assert(string_views(out@) =~= before.push(cur@));
    }
    out
}

fn kept(cur: &Vec<char>) -> (r: bool)
    ensures
        r == is_kept_segment(cur@),
{
    proof {
        reveal_strlit(".");
        reveal_strlit("..");
    }
    if cur.len() == 0 {
        return false;
    }
    if cur.len() == 1 && cur[0] == '.' {
        assert(cur@ =~= "."@);
        return false;
    }
    if cur.len() == 2 && cur[0] == '.' && cur[1] == '.' {
        assert(cur@ =~= ".."@);
        return false;
    }
    true
}

/// Every text of `segs` is a plain name.
pub open spec fn all_plain(segs: Seq<Seq<char>>) -> bool {
    forall|k: int| 0 <= k < segs.len() ==> is_plain_name(#[trigger] segs[k])
}

/// `seps` holds `n` separators, each `/` or `\\`.
pub open spec fn separators_ok(seps: Seq<char>, n: nat) -> bool {
    seps.len() == n && forall|k: int| 0 <= k < seps.len() ==> is_separator_choice(#[trigger] seps[k])
}

/// `root` with the texts of `segs` adjoined in order, the `k`-th after separator `seps[k]`.
pub open spec fn joined_with_seps(root: Seq<char>, segs: Seq<Seq<char>>, seps: Seq<char>) -> Seq<char>
    decreases segs.len(),
{
    if segs.len() == 0 {
        root
    } else {
        pushed_with(joined_with_seps(root, segs.drop_last(), seps.drop_last()), segs.last(), seps.last())
    }
}

/// What joining `rel` below `root` gives: `root` itself when `rel` has no kept segment;
/// otherwise a path ending in the last segment; and, where `root` has no prefix marks
/// and every kept segment is a plain name, exactly `root` followed by each kept segment
/// in order, each after one separator (none where the path so far is empty or already
/// ends in one).
pub open spec fn joins_below(root: Seq<char>, rel: Seq<char>, r: Seq<char>) -> bool {
    let segs = safe_segments(rel);
    &&& segs.len() == 0 ==> r == root
    &&& segs.len() > 0 && is_plain_name(segs.last()) ==> ends_with(r, segs.last())
    &&& no_prefix_marks(root) && all_plain(segs) ==> exists|seps: Seq<char>|
        #![trigger joined_with_seps(root, segs, seps)]
        separators_ok(seps, segs.len()) && r == joined_with_seps(root, segs, seps)
}

/// A path joined from a root without prefix marks and plain names has no prefix marks
/// and begins with the root.
pub proof fn lemma_joined_shape(root: Seq<char>, segs: Seq<Seq<char>>, seps: Seq<char>)
    requires
        no_prefix_marks(root),
        all_plain(segs),
        separators_ok(seps, segs.len()),
    ensures
        no_prefix_marks(joined_with_seps(root, segs, seps)),
        joined_with_seps(root, segs, seps).len() >= root.len(),
        joined_with_seps(root, segs, seps).subrange(0, root.len() as int) == root,
    decreases segs.len(),
{
    if segs.len() > 0 {
        let a = segs.drop_last();
        let b = seps.drop_last();
        assert(all_plain(a)) by {
            assert forall|k: int| 0 <= k < a.len() implies is_plain_name(#[trigger] a[k]) by {
                assert(a[k] == segs[k]);
            }
        }
        assert(separators_ok(b, a.len())) by {
            assert forall|k: int| 0 <= k < b.len() implies is_separator_choice(#[trigger] b[k]) by {
                assert(b[k] == seps[k]);
            }
        }
        lemma_joined_shape(root, a, b);
        let prev = joined_with_seps(root, a, b);
        let name = segs.last();
        let sep = seps.last();
        assert(is_plain_name(segs[segs.len() - 1]));
        assert(is_separator_choice(seps[seps.len() - 1]));
        let r = joined_with_seps(root, segs, seps);
        assert(r == pushed_with(prev, name, sep));
        if prev.len() == 0 {
            assert(r == name);
            assert(root.len() == 0);
            assert(r.subrange(0, 0) =~= root);
            assert forall|i: int| 0 <= i < r.len() implies #[trigger] r[i] != ':' by {
                assert(name[i] != ':');
            }
        } else if prev.last() == '/' || prev.last() == sep {
            assert(r == prev + name);
            assert(r.subrange(0, root.len() as int) =~= prev.subrange(0, root.len() as int));
            assert forall|i: int| 0 <= i < r.len() implies #[trigger] r[i] != ':' by {
                if i < prev.len() {
                    assert(r[i] == prev[i]);
                } else {
                    assert(r[i] == name[i - prev.len()]);
                }
            }
            assert(r[0] == prev[0]);
        } else {
            assert(r == prev.push(sep) + name);
            assert(r.subrange(0, root.len() as int) =~= prev.subrange(0, root.len() as int));
            assert forall|i: int| 0 <= i < r.len() implies #[trigger] r[i] != ':' by {
                if i < prev.len() {
                    assert(r[i] == prev[i]);
                } else if i == prev.len() {
                    assert(r[i] == sep);
                } else {
                    assert(r[i] == name[i - prev.len() - 1]);
                }
            }
            assert(r[0] == prev[0]);
        }
    }
}

/// Joins a `/`-separated relative path below `root`, one kept segment at a time, so
/// that the result stays below `root`.
pub fn join_rel(root: &str, relative_path: &str) -> (r: String)
    ensures
        joins_below(root@, relative_path@, r@),
{
    let parts = rel_segments(relative_path);
    let ghost segs = safe_segments(relative_path@);
    let ghost exact = no_prefix_marks(root@) && all_plain(segs);
    let ghost mut seps: Seq<char> = Seq::empty();
    let mut out = String::from_str(root);
    let n = parts.len();
    let mut i: usize = 0;
    assert(segs.take(0) =~= Seq::<Seq<char>>::empty());
    while i < n
        invariant
            n == parts@.len(),
            i <= n,
            string_views(parts@) == segs,
            segs == safe_segments(relative_path@),
            exact == (no_prefix_marks(root@) && all_plain(segs)),
            i == 0 ==> out@ == root@,
            i > 0 && is_plain_name(parts@[i - 1]@) ==> ends_with(out@, parts@[i - 1]@),
            exact ==> separators_ok(seps, i as nat) && out@ == joined_with_seps(root@, segs.take(i as int), seps),
        decreases n - i,
    {
        let ghost prev = out@;
        proof {
            assert(string_views(parts@)[i as int] == parts@[i as int]@);
            if exact {
                let t = segs.take(i as int);
                assert(all_plain(t)) by {
                    assert forall|k: int| 0 <= k < t.len() implies is_plain_name(#[trigger] t[k]) by {
                        assert(t[k] == segs[k]);
                    }
                }
                lemma_joined_shape(root@, t, seps);
                assert(is_plain_name(segs[i as int]));
            }
        }
        out = path_push(out.as_str(), parts[i].as_str());
        proof {
            if exact {
                let c: char = if out@ == pushed_with(prev, parts@[i as int]@, '/') { '/' } else { '\\' };
                let t1 = segs.take(i + 1);
                assert(t1.drop_last() =~= segs.take(i as int));
                assert(t1.last() == parts@[i as int]@);
                let seps2 = seps.push(c);
                assert(seps2.drop_last() =~= seps);
                assert(separators_ok(seps2, (i + 1) as nat)) by {
                    assert forall|k: int| 0 <= k < seps2.len() implies is_separator_choice(#[trigger] seps2[k]) by {
                        if k < seps.len() {
                            assert(seps2[k] == seps[k]);
                        }
                    }
                }
                assert(out@ == joined_with_seps(root@, t1, seps2));
                seps = seps2;
            }
        }
        i = i + 1;
    }
    proof {
        if n > 0 {
            assert(string_views(parts@)[n - 1] == parts@[n - 1]@);
        }
        assert(segs.take(n as int) =~= segs);
        if exact {
            assert(separators_ok(seps, segs.len()) && out@ == joined_with_seps(root@, segs, seps));
        }
    }
    out
}

/// A root joined with a relative path stays below the root: where the root has no
/// prefix marks and the kept segments are plain names, the joined path begins with the
/// root.
pub proof fn law_join_begins_with_root(root: Seq<char>, rel: Seq<char>, r: Seq<char>)
    requires
        joins_below(root, rel, r),
        no_prefix_marks(root),
        all_plain(safe_segments(rel)),
    ensures
        r.len() >= root.len(),
        r.subrange(0, root.len() as int) == root,
{
    let segs = safe_segments(rel);
    let seps = choose|seps: Seq<char>| separators_ok(seps, segs.len()) && r == joined_with_seps(root, segs, seps);
    lemma_joined_shape(root, segs, seps);
}

proof fn lemma_segments_shift(p: Seq<char>, b: Seq<char>, j: int, cur: Seq<char>, acc: Seq<Seq<char>>)
    requires
        0 <= j <= b.len(),
    ensures
        segments_from(p + b, p.len() + j, cur, acc) == segments_from(b, j, cur, acc),
    decreases b.len() - j,
{
    let s = p + b;
    if j < b.len() {
        assert(s[p.len() + j] == b[j]);
        if b[j] == '/' {
            lemma_segments_shift(p, b, j + 1, Seq::empty(), if is_kept_segment(cur) { acc.push(cur) } else { acc });
        } else {
            lemma_segments_shift(p, b, j + 1, cur.push(b[j]), acc);
        }
    }
}

proof fn lemma_segments_split(a: Seq<char>, b: Seq<char>, i: int, cur: Seq<char>, acc: Seq<Seq<char>>)
    requires
        0 <= i <= a.len(),
    ensures
        segments_from(a + "/"@ + b, i, cur, acc) == segments_from(b, 0, Seq::empty(), segments_from(a, i, cur, acc)),
    decreases a.len() - i,
{
    reveal_strlit("/");
    let s = a + "/"@ + b;
    if i < a.len() {
        assert(s[i] == a[i]);
        if a[i] == '/' {
            lemma_segments_split(a, b, i + 1, Seq::empty(), if is_kept_segment(cur) { acc.push(cur) } else { acc });
        } else {
            lemma_segments_split(a, b, i + 1, cur.push(a[i]), acc);
        }
    } else {
        assert(s[i] == '/');
        let acc2 = if is_kept_segment(cur) { acc.push(cur) } else { acc };
        assert(s =~= (a + "/"@) + b);
        lemma_segments_shift(a + "/"@, b, 0, Seq::empty(), acc2);
    }
}

proof fn lemma_segments_of_name(name: Seq<char>, j: int, acc: Seq<Seq<char>>)
    requires
        is_plain_name(name),
        0 <= j <= name.len(),
    ensures
        segments_from(name, j, name.subrange(0, j), acc) == acc.push(name),
    decreases name.len() - j,
{
    if j < name.len() {
        assert(name[j] != '/');
        assert(name.subrange(0, j).push(name[j]) =~= name.subrange(0, j + 1));
        lemma_segments_of_name(name, j + 1, acc);
    } else {
        assert(name.subrange(0, j) =~= name);
    }
}

/// The kept segments of plain names joined with `/` are those names: a path written
/// with `/` between plain components splits back into exactly its components.
pub proof fn law_slash_join_segments(parts: Seq<Seq<char>>)
    requires
        all_plain(parts),
    ensures
        safe_segments(joined_by_slash(parts)) == parts,
    decreases parts.len(),
{
    if parts.len() == 0 {
        assert(safe_segments(Seq::<char>::empty()) =~= Seq::<Seq<char>>::empty());
    } else {
        let last = parts.last();
        assert(is_plain_name(parts[parts.len() - 1]));
        assert(last.subrange(0, 0) =~= Seq::<char>::empty());
        if parts.len() == 1 {
            lemma_segments_of_name(last, 0, Seq::empty());
            assert(Seq::<Seq<char>>::empty().push(last) =~= parts);
        } else {
            let init = parts.drop_last();
            assert(all_plain(init)) by {
                assert forall|k: int| 0 <= k < init.len() implies is_plain_name(#[trigger] init[k]) by {
                    assert(init[k] == parts[k]);
                }
            }
            law_slash_join_segments(init);
            lemma_segments_split(joined_by_slash(init), last, 0, Seq::empty(), Seq::empty());
            lemma_segments_of_name(last, 0, init);
            assert(init.push(last) =~= parts);
        }
    }
}

/// Joining a normalized relative path below a root adjoins exactly the path's own
/// components: where the path is portable and relative with plain components, and the
/// root has no prefix marks, the result is the root followed by those components.
pub proof fn law_join_of_normalized(root: Seq<char>, rel: Seq<char>, normalized: Seq<char>, r: Seq<char>)
    requires
        is_portable_path(rel),
        !(rel.len() > 0 && rel[0] == '/'),
        all_plain(component_texts(rel, "/"@)),
        normalized == joined_by_slash(component_texts(rel, "/"@)),
        joins_below(root, normalized, r),
        no_prefix_marks(root),
    ensures
        exists|seps: Seq<char>|
            #![trigger joined_with_seps(root, component_texts(rel, "/"@), seps)]
            separators_ok(seps, component_texts(rel, "/"@).len()) && r == joined_with_seps(
                root,
                component_texts(rel, "/"@),
                seps,
            ),
{
    law_slash_join_segments(component_texts(rel, "/"@));
}

/// Joins texts with `/`.
pub fn join_with_slash(parts: &Vec<String>) -> (r: String)
    ensures
        r@ == joined_by_slash(string_views(parts@)),
{
    let mut out = String::new();
    let n = parts.len();
    let mut i: usize = 0;
    while i < n
        invariant
            n == parts@.len(),
            i <= n,
            out@ == joined_by_slash(string_views(parts@.take(i as int))),
        decreases n - i,
    {
        let ghost prev = string_views(parts@.take(i as int));
        if i > 0 {
            out.append("/");
        }
        out.append(parts[i].as_str());
        proof {
            let next = string_views(parts@.take(i + 1));
            assert(next.drop_last() =~= prev);
            assert(next.last() == parts@[i as int]@);
            if i == 0 {
                assert(out@ =~= next[0]);
            }
        }
        i = i + 1;
    }
    assert(parts@.take(n as int) =~= parts@);
    out
}

/// A relative path written with `/` between its components, whatever the platform's
/// separator, so that it serves as a stable key. For a portable path (no `\\`, no `:`,
/// no leading `//`) the components are those that the standard library documents:
/// repeated and trailing separators and non-leading `.` dropped, so `a//b`, `a/./b` and
/// `a/b/` all give `a/b`.
pub fn normalize_rel_path(path: &str) -> (r: String)
    ensures
        exists|parts: Seq<Seq<char>>| r@ == joined_by_slash(parts),
        is_portable_path(path@) && !(path@.len() > 0 && path@[0] == '/') ==> r@ == joined_by_slash(
            component_texts(path@, "/"@),
        ),
        is_portable_path(path@) ==> (r@ == joined_by_slash(component_texts(path@, "/"@)) || r@
            == joined_by_slash(component_texts(path@, "\\"@))),
        is_prefix_free_path(path@) ==> (r@ == joined_by_slash(component_texts(path@, "/"@)) || r@
            == joined_by_slash(component_texts(slashes_for_backslashes(path@), "\\"@))),
{
    proof {
        if is_portable_path(path@) {
            assert(slashes_for_backslashes(path@) =~= path@);
        }
    }
    let parts = path_components(path);
    join_with_slash(&parts)
}

} // verus!
