//! Audit-log lines (one JSON object per line) and progress snapshots.

use vstd::prelude::*;

use crate::text::{chars_of, string_of, u64_text};

verus! {

/// Lowercase hex digit `d` (0..=15).
pub open spec fn hex_digit_lower(d: int) -> char {
    seq!['0', '1', '2', '3', '4', '5', '6', '7', '8', '9', 'a', 'b', 'c', 'd', 'e', 'f'][d]
}

/// The JSON escape of one character: backslash, quote and the control characters
/// below U+0020 are escaped (`\n`, `\r`, `\t`, `\b`, `\f` by their short forms, the
/// others as `\u00XX`); everything else stands for itself.
pub open spec fn escaped_char(c: char) -> Seq<char> {
    if c == '\\' {
        seq!['\\', '\\']
    } else if c == '"' {
        seq!['\\', '"']
    } else if c == '\n' {
        seq!['\\', 'n']
    } else if c == '\r' {
        seq!['\\', 'r']
    } else if c == '\t' {
        seq!['\\', 't']
    } else if c == '\u{8}' {
        seq!['\\', 'b']
    } else if c == '\u{c}' {
        seq!['\\', 'f']
    } else if (c as u32) < 0x20 {
        seq!['\\', 'u', '0', '0', hex_digit_lower(((c as u32) / 16) as int), hex_digit_lower(((c as u32) % 16) as int)]
    } else {
        seq![c]
    }
}

/// The JSON escape of a text, character by character.
pub open spec fn escaped(s: Seq<char>) -> Seq<char>
    decreases s.len(),
{
    if s.len() == 0 {
        Seq::empty()
    } else {
        escaped(s.drop_last()) + escaped_char(s.last())
    }
}

fn hex_digit_char(d: u32) -> (r: char)
    requires
        d < 16,
    ensures
        r == hex_digit_lower(d as int),
{
    match d {
        0 => '0',
        1 => '1',
        2 => '2',
        3 => '3',
        4 => '4',
        5 => '5',
        6 => '6',
        7 => '7',
        8 => '8',
        9 => '9',
        10 => 'a',
        11 => 'b',
        12 => 'c',
        13 => 'd',
        14 => 'e',
        _ => 'f',
    }
}

/// Appends the JSON escape of `c` to `out`.
fn push_escaped(out: &mut Vec<char>, c: char)
    ensures
        final(out)@ == old(out)@ + escaped_char(c),
{
    let code: u32 = c as u32;
    if c == '\\' {
        out.push('\\');
        out.push('\\');
    } else if c == '"' {
        out.push('\\');
        out.push('"');
    } else if c == '\n' {
        out.push('\\');
        out.push('n');
    } else if c == '\r' {
        out.push('\\');
        out.push('r');
    } else if c == '\t' {
        out.push('\\');
        out.push('t');
    } else if c == '\u{8}' {
        out.push('\\');
        out.push('b');
    } else if c == '\u{c}' {
        out.push('\\');
        out.push('f');
    } else if code < 0x20 {
        out.push('\\');
        out.push('u');
        out.push('0');
        out.push('0');
        let hi = hex_digit_char(code / 16);
        out.push(hi);
        let lo = hex_digit_char(code % 16);
        out.push(lo);
    } else {
        out.push(c);
    }
    assert(final(out)@ =~= old(out)@ + escaped_char(c));
}

/// Escapes a text for use inside a JSON string literal.
pub fn escape_json(s: &str) -> (r: String)
    ensures
        r@ == escaped(s@),
{
    let cs = chars_of(s);
    let n = cs.len();
    let mut out: Vec<char> = Vec::new();
    let mut i: usize = 0;
    while i < n
        invariant
            n == cs@.len(),
            cs@ == s@,
            i <= n,
            out@ == escaped(cs@.take(i as int)),
        decreases n - i,
    {
        let c = cs[i];
        push_escaped(&mut out, c);
        proof {
            let t = cs@.take(i + 1);
            assert(t.drop_last() =~= cs@.take(i as int));
            assert(t.last() == c);
        }
        i = i + 1;
    }
    assert(cs@.take(n as int) =~= cs@);
    string_of(&out)
}

/// No character of an escaped text is a control character below U+0020, so the text
/// can stand between quotes in a JSON line.
pub proof fn law_escaped_has_no_control_chars(s: Seq<char>)
    ensures
        forall|i: int| 0 <= i < escaped(s).len() ==> (#[trigger] escaped(s)[i] as u32) >= 0x20,
    decreases s.len(),
{
    if s.len() > 0 {
        law_escaped_has_no_control_chars(s.drop_last());
        let a = escaped(s.drop_last());
        let b = escaped_char(s.last());
        assert(escaped(s) == a + b);
        assert forall|i: int| 0 <= i < escaped(s).len() implies (#[trigger] escaped(s)[i] as u32) >= 0x20 by {
            if i < a.len() {
                assert(escaped(s)[i] == a[i]);
            } else {
                assert(escaped(s)[i] == b[i - a.len()]);
            }
        }
    }
}

/// The value of a hex digit of either case.
pub open spec fn hex_value(c: char) -> Option<int> {
    let v = c as u32;
    if 48 <= v <= 57 {
        Some(v - 48)
    } else if 97 <= v <= 102 {
        Some(v - 87)
    } else if 65 <= v <= 70 {
        Some(v - 55)
    } else {
        None
    }
}

/// The character that a one-character JSON escape `\e` stands for.
pub open spec fn short_escape(e: char) -> Option<char> {
    if e == '"' {
        Some('"')
    } else if e == '\\' {
        Some('\\')
    } else if e == '/' {
        Some('/')
    } else if e == 'b' {
        Some('\u{8}')
    } else if e == 'f' {
        Some('\u{c}')
    } else if e == 'n' {
        Some('\n')
    } else if e == 'r' {
        Some('\r')
    } else if e == 't' {
        Some('\t')
    } else {
        None
    }
}

/// The code of a character.
pub open spec fn code_of(ch: char) -> int {
    ch as u32 as int
}

/// The character whose code is `v`.
pub open spec fn char_of_code(v: int) -> char {
    choose|ch: char| #[trigger] code_of(ch) == v
}

/// `c` followed by the decoded rest, or `None` when the rest does not decode.
pub open spec fn prepend_decoded(c: char, rest: Option<Seq<char>>) -> Option<Seq<char>> {
    match rest {
        Some(r) => Some(seq![c] + r),
        None => None,
    }
}

/// The text that the body of a JSON string literal (the part between the quotes)
/// stands for, or `None` where the body is not valid JSON: a raw `"` or control
/// character below U+0020, a lone `\`, or an unknown escape. A `\u` escape of four hex
/// digits stands for the character of that code; the surrogate codes, which JSON
/// combines in pairs, are left undecoded here.
pub open spec fn json_unescape(t: Seq<char>) -> Option<Seq<char>>
    decreases t.len(),
{
    if t.len() == 0 {
        Some(Seq::empty())
    } else if t[0] == '"' || (t[0] as u32) < 0x20 {
        None
    } else if t[0] != '\\' {
        prepend_decoded(t[0], json_unescape(t.subrange(1, t.len() as int)))
    } else if t.len() < 2 {
        None
    } else if short_escape(t[1]) is Some {
        prepend_decoded(short_escape(t[1])->0, json_unescape(t.subrange(2, t.len() as int)))
    } else if t[1] == 'u' && t.len() >= 6 && hex_value(t[2]) is Some && hex_value(t[3]) is Some
        && hex_value(t[4]) is Some && hex_value(t[5]) is Some {
        let v = 4096 * hex_value(t[2])->0 + 256 * hex_value(t[3])->0 + 16 * hex_value(t[4])->0 + hex_value(
            t[5],
        )->0;
        if 0xD800 <= v < 0xE000 {
            None
        } else {
            prepend_decoded(char_of_code(v), json_unescape(t.subrange(6, t.len() as int)))
        }
    } else {
        None
    }
}

proof fn lemma_hex_digit_value(d: int)
    requires
        0 <= d < 16,
    ensures
        hex_value(hex_digit_lower(d)) == Some(d),
{
    let ds = seq!['0', '1', '2', '3', '4', '5', '6', '7', '8', '9', 'a', 'b', 'c', 'd', 'e', 'f'];
    assert(hex_digit_lower(d) == ds[d]);
    if d < 10 {
        assert(ds[d] as u32 == 48 + d);
    } else {
        assert(ds[d] as u32 == 87 + d);
    }
}

proof fn lemma_escaped_front(c: char, s: Seq<char>)
    ensures
        escaped(seq![c] + s) == escaped_char(c) + escaped(s),
    decreases s.len(),
{
    if s.len() == 0 {
        assert(seq![c] + s =~= seq![c]);
        assert(seq![c].drop_last() =~= Seq::<char>::empty());
        assert(escaped_char(c) + escaped(s) =~= escaped_char(c));
        assert(escaped(Seq::<char>::empty()) == Seq::<char>::empty());
        assert(seq![c].last() == c);
        assert(escaped(seq![c]) == escaped(seq![c].drop_last()) + escaped_char(c));
        assert(escaped(seq![c]) =~= escaped_char(c));
    } else {
        let t = seq![c] + s;
        assert(t.drop_last() =~= seq![c] + s.drop_last());
        assert(t.last() == s.last());
        lemma_escaped_front(c, s.drop_last());
        assert(escaped(t) =~= escaped_char(c) + escaped(s));
    }
}

proof fn lemma_unescape_char(c: char, rest: Seq<char>)
    ensures
        json_unescape(escaped_char(c) + rest) == prepend_decoded(c, json_unescape(rest)),
{
    let t = escaped_char(c) + rest;
    let code = c as u32;
    if c == '\\' || c == '"' || c == '\n' || c == '\r' || c == '\t' || c == '\u{8}' || c == '\u{c}' {
        assert(t[0] == '\\');
        assert(t.subrange(2, t.len() as int) =~= rest);
    } else if code < 0x20 {
        let hi = (code / 16) as int;
        let lo = (code % 16) as int;
        assert(0 <= hi < 2 && 0 <= lo < 16);
        lemma_hex_digit_value(0);
        lemma_hex_digit_value(hi);
        lemma_hex_digit_value(lo);
        assert(t[0] == '\\' && t[1] == 'u' && t[2] == '0' && t[3] == '0');
        assert(t[4] == hex_digit_lower(hi) && t[5] == hex_digit_lower(lo));
        assert(hex_value('0') == Some(0int));
        assert(code == 16 * hi + lo);
        assert(t.subrange(6, t.len() as int) =~= rest);
        assert(code_of(c) == 16 * hi + lo);
        let ch = char_of_code(16 * hi + lo);
        assert(code_of(ch) == 16 * hi + lo);
        assert(ch == c);
    } else {
        assert(t[0] == c);
        assert(t.subrange(1, t.len() as int) =~= rest);
    }
}

/// Between quotes, an escaped text is a valid JSON string literal that stands for the
/// text itself: decoding the escape gives the original back.
pub proof fn law_escaped_decodes_back(s: Seq<char>)
    ensures
        json_unescape(escaped(s)) == Some(s),
    decreases s.len(),
{
    if s.len() > 0 {
        let tail = s.subrange(1, s.len() as int);
        assert(s =~= seq![s[0]] + tail);
        lemma_escaped_front(s[0], tail);
        law_escaped_decodes_back(tail);
        lemma_unescape_char(s[0], escaped(tail));
        assert(seq![s[0]] + tail =~= s);
    }
}

/// The audit line for one event: a JSON object with `ts`, `action`, `pair_id`, `path`,
/// `reason` and `dry_run`, ended by a newline.
pub open spec fn audit_line_text(
    ts: u64,
    action: Seq<char>,
    pair_id: Seq<char>,
    path: Seq<char>,
    reason: Seq<char>,
    dry_run: bool,
) -> Seq<char> {
    "{\"ts\":"@ + crate::text::decimal_nat(ts as nat) + ",\"action\":\""@ + escaped(action)
        + "\",\"pair_id\":\""@ + escaped(pair_id) + "\",\"path\":\""@ + escaped(path)
        + "\",\"reason\":\""@ + escaped(reason) + "\",\"dry_run\":"@ + (if dry_run {
        "true"@
    } else {
        "false"@
    }) + "}\n"@
}

/// Formats one audit event as a JSON line.
pub fn audit_line(ts: u64, action: &str, pair_id: &str, path: &str, reason: &str, dry_run: bool) -> (r:
    String)
    ensures
        r@ == audit_line_text(ts, action@, pair_id@, path@, reason@, dry_run),
{
    let mut line = String::from_str("{\"ts\":");
    let t = u64_text(ts);
    line.append(t.as_str());
    line.append(",\"action\":\"");
    let a = escape_json(action);
    line.append(a.as_str());
    line.append("\",\"pair_id\":\"");
    let p = escape_json(pair_id);
    line.append(p.as_str());
    line.append("\",\"path\":\"");
    let q = escape_json(path);
    line.append(q.as_str());
    line.append("\",\"reason\":\"");
    let e = escape_json(reason);
    line.append(e.as_str());
    line.append("\",\"dry_run\":");
    if dry_run {
        line.append("true");
    } else {
        line.append("false");
    }
    line.append("}\n");
    line
}

/// Counters of a running sync.
#[derive(Debug, Clone, Copy)]
pub struct ProgressSnapshot {
    pub scanned: u64,
    pub copied: u64,
    pub skipped: u64,
    pub errors: u64,
    pub bytes_copied: u64,
}

impl Default for ProgressSnapshot {
    fn default() -> (r: Self)
        ensures
            r.scanned == 0 && r.copied == 0 && r.skipped == 0 && r.errors == 0 && r.bytes_copied == 0,
    {
        ProgressSnapshot { scanned: 0, copied: 0, skipped: 0, errors: 0, bytes_copied: 0 }
    }
}

} // verus!
