use ferrisync::error::Error;
use ferrisync::hasher::{hash_bytes, hex_decode, hex_encode, StreamHasher};
use ferrisync::logging::{audit_line, escape_json, ProgressSnapshot};
use ferrisync::text::{is_blank, str_eq};

#[test]
fn stream_hash_matches_blake3_in_any_split() {
    let input = b"ferrisync-test-vector";
    let mut h = StreamHasher::new();
    h.update(&input[..5]);
    h.update(&input[5..]);
    assert_eq!(h.finalize(), *blake3::hash(input).as_bytes());
    assert_eq!(hash_bytes(input), *blake3::hash(input).as_bytes());
}

#[test]
fn empty_stream_hashes_like_empty_input() {
    let h = StreamHasher::new();
    assert_eq!(h.finalize(), *blake3::hash(b"").as_bytes());
    assert_ne!(hash_bytes(b"x"), [0u8; 32]);
}

#[test]
fn stream_hashing_is_deterministic() {
    let mut a = StreamHasher::new();
    a.update(b"repeat-me");
    let mut b = StreamHasher::new();
    b.update(b"repeat-me");
    assert_eq!(a.finalize(), b.finalize());
    assert_eq!(hex_encode(&a.finalize()), hex_encode(&b.finalize()));
}

#[test]
fn hex_round_trip() {
    let mut d = [0u8; 32];
    d[0] = 0xab;
    d[31] = 0x0f;
    let s = hex_encode(&d);
    assert_eq!(s.len(), 64);
    assert!(s.starts_with("ab00"));
    assert!(s.ends_with("0f"));
    assert_eq!(hex_decode(&s).unwrap(), d);
    assert_eq!(hex_decode(&s.to_uppercase()).unwrap(), d);
}

#[test]
fn hex_decode_rejects_bad_input() {
    assert!(matches!(hex_decode("abc"), Err(Error::Other(_))));
    assert!(matches!(hex_decode("zz"), Err(Error::Other(_))));
    match hex_decode("abcd") {
        Err(Error::Other(m)) => assert_eq!(m, "digest must be 32 bytes, got 2"),
        other => panic!("unexpected {:?}", other),
    }
}

#[test]
fn escape_json_escapes_controlled_characters() {
    assert_eq!(escape_json("a\\b\"c\nd\re"), "a\\\\b\\\"c\\nd\\re");
    assert_eq!(escape_json("plain"), "plain");
}

#[test]
fn audit_line_is_one_json_object() {
    let line = audit_line(42, "skip", "p\"1", "a/b", "source file already absent", true);
    assert_eq!(
        line,
        "{\"ts\":42,\"action\":\"skip\",\"pair_id\":\"p\\\"1\",\"path\":\"a/b\",\"reason\":\"source file already absent\",\"dry_run\":true}\n"
    );
    assert!(audit_line(0, "a", "b", "c", "d", false).ends_with("\"dry_run\":false}\n"));
}

#[test]
fn progress_snapshot_starts_at_zero() {
    let s = ProgressSnapshot::default();
    assert_eq!(s.scanned + s.copied + s.skipped + s.errors + s.bytes_copied, 0);
}

#[test]
fn text_helpers() {
    assert!(is_blank(" \t\n\u{3000}"));
    assert!(!is_blank(" x "));
    assert!(is_blank(""));
    assert!(str_eq("abc", "abc"));
    assert!(!str_eq("abc", "abd"));
}

#[test]
fn error_messages() {
    assert_eq!(Error::Config("x".into()).message(), "config error: x");
    assert_eq!(Error::io("/a", "denied".into()).message(), "IO error at /a: denied");
    assert_eq!(Error::PairNotFound("p".into()).message(), "pair not found: p");
    assert_eq!(
        Error::HashMismatch { path: "f".into(), source_hash: "a".into(), dest_hash: "b".into() }.message(),
        "hash mismatch for f: source=a dest=b"
    );
    assert_eq!(Error::Other("plain".into()).message(), "plain");
    assert_eq!(Error::Db("locked".into()).message(), "database error: locked");
}

#[test]
fn escape_json_escapes_all_control_characters() {
    assert_eq!(escape_json("a\tb\u{8}c\u{c}d\u{1}e\u{1f}"), "a\\tb\\bc\\fd\\u0001e\\u001f");
    assert_eq!(escape_json("\u{7f} \u{e9}"), "\u{7f} \u{e9}");
}

#[test]
fn hex_decode_reports_invalid_digits() {
    match hex_decode("zz") {
        Err(Error::Other(m)) => assert!(m.starts_with("invalid hex digest: ")),
        other => panic!("unexpected {:?}", other),
    }
}
