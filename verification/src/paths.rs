//! Platform path operations, made by the standard library and `directories`.

use vstd::prelude::*;

verus! {

/// A path component that every platform reads as one plain relative name: it is
/// not empty, not `.` or `..`, and holds no separator or drive marker.
pub open spec fn is_plain_name(s: Seq<char>) -> bool {
    &&& s.len() > 0
    &&& s != "."@
    &&& s != ".."@
    &&& forall|i: int| 0 <= i < s.len() ==> #[trigger] s[i] != '/' && s[i] != '\\' && s[i] != ':'
}

/// `s` ends with `t`.
pub open spec fn ends_with(s: Seq<char>, t: Seq<char>) -> bool {
    t.len() <= s.len() && s.subrange(s.len() - t.len(), s.len() as int) == t
}

/// `s` holds no `:` and does not start with `\\`. No platform reads a drive or a
/// verbatim prefix in such a path.
pub open spec fn no_prefix_marks(s: Seq<char>) -> bool {
    &&& forall|i: int| 0 <= i < s.len() ==> #[trigger] s[i] != ':'
    &&& !(s.len() > 0 && s[0] == '\\')
}

/// `name` adjoined to `base` on a platform whose separator is `sep`: an empty base gives
/// `name`, a base that already ends in a separator gets `name` directly, any other base
/// gets `sep` and then `name`. `/` is a separator everywhere.
pub open spec fn pushed_with(base: Seq<char>, name: Seq<char>, sep: char) -> Seq<char> {
    if base.len() == 0 {
        name
    } else if base.last() == '/' || base.last() == sep {
        base + name
    } else {
        base.push(sep) + name
    }
}

/// The platform separators: `/` and `\\`.
pub open spec fn is_separator_choice(sep: char) -> bool {
    sep == '/' || sep == '\\'
}

/// `PathBuf::push`: adjoins `name` to `base`. A plain name, which no platform reads as
/// absolute or as a prefix, ends up as the path's tail. Where `base` has no prefix marks,
/// the result is `base` with `name` after one separator (`/`, or `\\` where that is the
/// platform's own), none when `base` is empty or already ends in one; which separator
/// is the platform's is not stated.
#[verifier::external_body]
pub(crate) fn path_push(base: &str, name: &str) -> (r: String)
    ensures
        is_plain_name(name@) ==> ends_with(r@, name@),
        is_plain_name(name@) && no_prefix_marks(base@) ==> (r@ == pushed_with(base@, name@, '/') || r@
            == pushed_with(base@, name@, '\\')),
{
    let mut p = std::path::PathBuf::from(base);
    p.push(name);
    p.to_string_lossy().into_owned()
}

/// `/`-joined texts.
pub open spec fn joined_by_slash(parts: Seq<Seq<char>>) -> Seq<char>
    decreases parts.len(),
{
    if parts.len() == 0 {
        Seq::empty()
    } else if parts.len() == 1 {
        parts[0]
    } else {
        joined_by_slash(parts.drop_last()) + "/"@ + parts.last()
    }
}

/// The texts between the `/`s of `s`, empty ones included (as `split('/')` gives them).
pub open spec fn slash_pieces(s: Seq<char>) -> Seq<Seq<char>>
    decreases s.len(),
{
    if s.len() == 0 {
        seq![Seq::empty()]
    } else if s.last() == '/' {
        slash_pieces(s.drop_last()).push(Seq::empty())
    } else {
        let p = slash_pieces(s.drop_last());
        p.update(p.len() - 1, p.last().push(s.last()))
    }
}

/// The pieces that `Path::components` keeps past the start of a path: all but the empty
/// ones (repeated and trailing separators) and `.`.
pub open spec fn kept_pieces(ps: Seq<Seq<char>>) -> Seq<Seq<char>>
    decreases ps.len(),
{
    if ps.len() == 0 {
        Seq::empty()
    } else if ps.last().len() > 0 && ps.last() != "."@ {
        kept_pieces(ps.drop_last()).push(ps.last())
    } else {
        kept_pieces(ps.drop_last())
    }
}

/// A path text whose components every platform reads alike, but for the text of a
/// root: no `\\`, no `:`, and no leading `//` (a network prefix on some platforms).
pub open spec fn is_portable_path(s: Seq<char>) -> bool {
    &&& forall|i: int| 0 <= i < s.len() ==> #[trigger] s[i] != '\\' && s[i] != ':'
    &&& !(s.len() >= 2 && s[0] == '/' && s[1] == '/')
}

/// The component texts that `Path::components` gives for a portable path, the root
/// (a leading `/`) written as `root_text`: a leading `/` is its own component, a
/// leading `.` stays, later `.` pieces, empty pieces and a trailing `/` are dropped.
pub open spec fn component_texts(s: Seq<char>, root_text: Seq<char>) -> Seq<Seq<char>> {
    let ps = slash_pieces(s);
    if s.len() > 0 && s[0] == '/' {
        seq![root_text] + kept_pieces(ps.drop_first())
    } else if ps[0] == "."@ {
        seq!["."@] + kept_pieces(ps.drop_first())
    } else {
        kept_pieces(ps)
    }
}

/// `c` is a path separator on some platform: `/` everywhere, `\\` on Windows.
pub open spec fn is_separator_char(c: char) -> bool {
    c == '/' || c == '\\'
}

/// `s` with every `\\` written as `/`: how a platform that reads both as separators
/// splits it.
pub open spec fn slashes_for_backslashes(s: Seq<char>) -> Seq<char> {
    Seq::new(s.len(), |i: int| if s[i] == '\\' { '/' } else { s[i] })
}

/// A path text in which no platform reads a prefix: no `:` (drives) and no leading pair
/// of separators (network and verbatim prefixes).
pub open spec fn is_prefix_free_path(s: Seq<char>) -> bool {
    &&& forall|i: int| 0 <= i < s.len() ==> #[trigger] s[i] != ':'
    &&& !(s.len() >= 2 && is_separator_char(s[0]) && is_separator_char(s[1]))
}

/// `Path::components`, each component's text (lossily decoded). For a path in which no
/// platform reads a prefix, the components are those that the standard library
/// documents: repeated separators and a trailing one ignored, `.` dropped except at the
/// start, a leading separator as the root component. A platform that reads only `/` as
/// a separator gives the first reading below (root text `/`); one that also reads `\\`
/// (Windows) gives the second (root text `\\`). Which platform runs is not stated.
#[verifier::external_body]
pub(crate) fn path_components(path: &str) -> (r: Vec<String>)
    ensures
        is_prefix_free_path(path@) ==> (r@.map_values(|s: String| s@) == component_texts(path@, "/"@)
            || r@.map_values(|s: String| s@) == component_texts(slashes_for_backslashes(path@), "\\"@)),
{
    std::path::Path::new(path).components().map(|c| c.as_os_str().to_string_lossy().into_owned()).collect()
}

/// `directories::ProjectDirs::from(..).data_dir()`: the per-user data directory of an
/// application, as text. It depends on the user's environment, so nothing is stated of
/// it. A directory whose name is not valid UTF-8 comes back lossily decoded (invalid
/// bytes as U+FFFD), since the library holds paths as `String`s.
#[verifier::external_body]
pub(crate) fn project_data_dir(qualifier: &str, organization: &str, application: &str) -> Option<String> {
    match directories::ProjectDirs::from(qualifier, organization, application) {
        Some(d) => Some(d.data_dir().to_string_lossy().into_owned()),
        None => None,
    }
}

} // verus!
